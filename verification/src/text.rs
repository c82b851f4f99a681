//! Text helpers: characters, numbers in decimal, trimming, matching.

use vstd::prelude::*;

verus! {

// ── Outside calls ───────────────────────────────────────────────────

/// `String::push`: appends one character.
#[verifier::external_body]
pub(crate) fn push_char(s: &mut String, c: char)
    ensures
        final(s)@ == old(s)@.push(c),
{
    s.push(c)
}

/// `str == str`: the two texts hold the same characters.
#[verifier::external_body]
pub(crate) fn same_text(a: &str, b: &str) -> (r: bool)
    ensures
        r == (a@ == b@),
{
    a == b
}

/// What `str::to_lowercase` gives for a text.
pub uninterp spec fn lowercase_of(s: Seq<char>) -> Seq<char>;

/// `str::to_lowercase`: the lowercase form of a text, which the text alone
/// decides. The lowercase form of the empty text is empty.
#[verifier::external_body]
pub(crate) fn lowercase(s: &str) -> (r: String)
    ensures
        r@ == lowercase_of(s@),
        s@.len() == 0 ==> r@.len() == 0,
{
    s.to_lowercase()
}

/// The character has the Unicode property `White_Space`.
pub open spec fn space(c: char) -> bool {
    ||| '\u{9}' <= c <= '\u{d}'
    ||| c == ' '
    ||| c == '\u{85}'
    ||| c == '\u{a0}'
    ||| c == '\u{1680}'
    ||| '\u{2000}' <= c <= '\u{200a}'
    ||| c == '\u{2028}'
    ||| c == '\u{2029}'
    ||| c == '\u{202f}'
    ||| c == '\u{205f}'
    ||| c == '\u{3000}'
}

/// `char::is_whitespace`: the characters with the Unicode property `White_Space`,
/// which are those that [`space`] lists.
#[verifier::external_body]
pub(crate) fn is_space(c: char) -> (r: bool)
    ensures
        r == space(c),
{
    c.is_whitespace()
}

// ── Characters ──────────────────────────────────────────────────────

/// The characters of `s`, in order.
pub fn chars_of(s: &str) -> (r: Vec<char>)
    ensures
        r@ == s@,
{
    let mut out: Vec<char> = Vec::new();
    for c in it: s.chars()
        invariant
            out@ == it.seq().take(it.index() as int),
            it.seq() == s@,
    {
        out.push(c);
    }
    out
}

/// The text made of `chars`, in order.
pub fn text_of(chars: &Vec<char>) -> (r: String)
    ensures
        r@ == chars@,
{
    let mut out: String = String::new();
    let n: usize = chars.len();
    let mut i: usize = 0;
    while i < n
        invariant
            i <= n,
            n == chars@.len(),
            out@ == chars@.take(i as int),
        decreases n - i,
    {
        push_char(&mut out, chars[i]);
        i = i + 1;
    }
    out
}

/// A text of its own that reads `s`.
pub fn owned(s: &str) -> (r: String)
    ensures
        r@ == s@,
{
    s.to_owned()
}

/// A letter between `A` and `Z` in lower case; any other character as it is.
pub open spec fn lower_letter(c: char) -> char {
    if 'A' <= c && c <= 'Z' {
        ((c as u8) + 32) as char
    } else {
        c
    }
}

/// A text with its letters between `A` and `Z` in lower case.
pub open spec fn ascii_lower_of(s: Seq<char>) -> Seq<char> {
    s.map_values(|c: char| lower_letter(c))
}

/// The text with its letters between `A` and `Z` in lower case.
pub fn ascii_lower(s: &str) -> (r: String)
    ensures
        r@ == ascii_lower_of(s@),
{
    let chars: Vec<char> = chars_of(s);
    let n: usize = chars.len();
    let mut out: String = String::new();
    let mut i: usize = 0;
    while i < n
        invariant
            i <= n,
            n == chars@.len(),
            out@ == ascii_lower_of(chars@.take(i as int)),
        decreases n - i,
    {
        let c: char = chars[i];
        let low: char = if 'A' <= c && c <= 'Z' {
            ((c as u8) + 32) as char
        } else {
            c
        };
        push_char(&mut out, low);
        proof {
            assert(chars@.take(i + 1) =~= chars@.take(i as int).push(c));
            assert(ascii_lower_of(chars@.take(i + 1)) =~= ascii_lower_of(chars@.take(i as int)).push(
                low,
            ));
        }
        i = i + 1;
    }
    proof {
        assert(chars@.take(n as int) =~= chars@);
    }
    out
}

/// `a` comes before `b` in the order of characters.
pub open spec fn before(a: Seq<char>, b: Seq<char>) -> bool
    decreases a.len(),
{
    if b.len() == 0 {
        false
    } else if a.len() == 0 {
        true
    } else if a[0] != b[0] {
        a[0] < b[0]
    } else {
        before(a.skip(1), b.skip(1))
    }
}

/// Whether `a` comes before `b` in the order of characters.
pub fn is_before(a: &str, b: &str) -> (r: bool)
    ensures
        r == before(a@, b@),
{
    let x: Vec<char> = chars_of(a);
    let y: Vec<char> = chars_of(b);
    let mut i: usize = 0;
    proof {
        assert(x@.skip(0) =~= x@);
        assert(y@.skip(0) =~= y@);
    }
    while i < x.len() && i < y.len()
        invariant
            i <= x@.len(),
            i <= y@.len(),
            x@ == a@,
            y@ == b@,
            before(a@, b@) == before(x@.skip(i as int), y@.skip(i as int)),
        decreases x@.len() - i,
    {
        proof {
            assert(x@.skip(i as int)[0] == x@[i as int]);
            assert(y@.skip(i as int)[0] == y@[i as int]);
            assert(x@.skip(i as int).skip(1) =~= x@.skip(i + 1));
            assert(y@.skip(i as int).skip(1) =~= y@.skip(i + 1));
        }
        if x[i] != y[i] {
            return x[i] < y[i];
        }
        i = i + 1;
    }
    i < y.len()
}

/// Texts are in one order: of two that are not the same, one comes first, and
/// what comes before a third comes before what that one comes before.
pub proof fn text_order(a: Seq<char>, b: Seq<char>, c: Seq<char>)
    ensures
        !before(a, a),
        !(before(a, b) && before(b, a)),
        before(a, b) || before(b, a) || a == b,
        before(a, b) && before(b, c) ==> before(a, c),
    decreases a.len(),
{
    if a.len() > 0 && b.len() > 0 && c.len() > 0 {
        text_order(a.skip(1), b.skip(1), c.skip(1));
    } else if a.len() > 0 && b.len() > 0 {
        text_order(a.skip(1), b.skip(1), Seq::empty());
    } else if a.len() > 0 {
        text_order(a.skip(1), a.skip(1), a.skip(1));
    }
    if a.len() > 0 && b.len() > 0 && a[0] == b[0] && a.skip(1) == b.skip(1) {
        assert(a =~= seq![a[0]] + a.skip(1));
        assert(b =~= seq![b[0]] + b.skip(1));
    }
    if a.len() == 0 && b.len() == 0 {
        assert(a =~= b);
    }
}

/// Appends the whole of `tail` to `s`.
pub fn push_text(s: &mut String, tail: &str)
    ensures
        final(s)@ == old(s)@ + tail@,
{
    s.append(tail);
}

/// `a` followed by `b`.
pub fn joined(a: &str, b: &str) -> (r: String)
    ensures
        r@ == a@ + b@,
{
    let mut out: String = String::new();
    out.append(a);
    out.append(b);
    out
}

/// `s` without its last character; the empty text stays empty.
pub open spec fn without_last(s: Seq<char>) -> Seq<char> {
    if s.len() == 0 {
        s
    } else {
        s.drop_last()
    }
}

/// Drops the last character of `s`, if there is one.
pub fn drop_last_char(s: &str) -> (r: String)
    ensures
        r@ == without_last(s@),
{
    let mut chars: Vec<char> = chars_of(s);
    let _ = chars.pop();
    text_of(&chars)
}

/// `s` with `c` put in at character position `at`.
pub fn insert_char(s: &str, at: usize, c: char) -> (r: String)
    requires
        at <= s@.len(),
    ensures
        r@ == s@.insert(at as int, c),
{
    let mut chars: Vec<char> = chars_of(s);
    chars.insert(at, c);
    text_of(&chars)
}

/// `s` without the character at position `at`.
pub fn remove_char(s: &str, at: usize) -> (r: String)
    requires
        at < s@.len(),
    ensures
        r@ == s@.remove(at as int),
{
    let mut chars: Vec<char> = chars_of(s);
    let _ = chars.remove(at);
    text_of(&chars)
}

/// A control code: the Unicode category `Cc`.
pub open spec fn control(c: char) -> bool {
    c as u32 <= 0x1f || 0x7f <= c as u32 <= 0x9f
}

/// Whether `c` is a control code.
pub fn is_control(c: char) -> (r: bool)
    ensures
        r == control(c),
{
    let code: u32 = c as u32;
    code <= 0x1f || (0x7f <= code && code <= 0x9f)
}

/// The test for a character that is no control code.
pub open spec fn visible() -> spec_fn(char) -> bool {
    |c: char| !control(c)
}

/// `s` with every control code left out.
pub open spec fn sanitized(s: Seq<char>) -> Seq<char> {
    s.filter(visible())
}

/// `s` with every control code left out, so that it is safe to write inside a
/// terminal escape sequence.
pub fn sanitize(s: &str) -> (r: String)
    ensures
        r@ == sanitized(s@),
{
    let chars: Vec<char> = chars_of(s);
    let mut out: String = String::new();
    let n: usize = chars.len();
    let mut i: usize = 0;
    proof {
        reveal(Seq::filter);
    }
    while i < n
        invariant
            i <= n,
            n == chars@.len(),
            out@ == chars@.take(i as int).filter(visible()),
        decreases n - i,
    {
        proof {
            reveal(Seq::filter);
            assert(chars@.take(i + 1).drop_last() =~= chars@.take(i as int));
        }
        if !is_control(chars[i]) {
            push_char(&mut out, chars[i]);
        }
        i = i + 1;
    }
    proof {
        assert(chars@.take(n as int) =~= chars@);
    }
    out
}

/// No control code is left in a sanitized text, whatever went in.
pub proof fn sanitized_has_no_control(s: Seq<char>, i: int)
    requires
        0 <= i < sanitized(s).len(),
    ensures
        !control(sanitized(s)[i]),
{
    broadcast use vstd::seq_lib::group_filter_ensures;

    assert(visible()(sanitized(s)[i]));
}

// ── Trimming and words ──────────────────────────────────────────────

/// `s` without the whitespace at its two ends.
pub open spec fn trimmed(s: Seq<char>) -> Seq<char> {
    trimmed_end(trimmed_start(s))
}

/// `s` without the whitespace at its start.
pub open spec fn trimmed_start(s: Seq<char>) -> Seq<char>
    decreases s.len(),
{
    if s.len() > 0 && space(s[0]) {
        trimmed_start(s.skip(1))
    } else {
        s
    }
}

/// `s` without the whitespace at its end.
pub open spec fn trimmed_end(s: Seq<char>) -> Seq<char>
    decreases s.len(),
{
    if s.len() > 0 && space(s.last()) {
        trimmed_end(s.drop_last())
    } else {
        s
    }
}

/// `s` up to its first whitespace character.
pub open spec fn up_to_space(s: Seq<char>) -> Seq<char>
    decreases s.len(),
{
    if s.len() == 0 || space(s[0]) {
        Seq::empty()
    } else {
        seq![s[0]] + up_to_space(s.skip(1))
    }
}

/// The first whitespace-separated word of `s`; none if `s` is all whitespace.
pub open spec fn first_word_of(s: Seq<char>) -> Option<Seq<char>> {
    let rest = trimmed_start(s);
    if rest.len() == 0 {
        None
    } else {
        Some(up_to_space(rest))
    }
}

/// Where the text begins once the whitespace at its start is passed.
fn start_of_text(chars: &Vec<char>) -> (at: usize)
    ensures
        at <= chars@.len(),
        chars@.skip(at as int) == trimmed_start(chars@),
        at < chars@.len() ==> !space(chars@[at as int]),
{
    let n: usize = chars.len();
    let mut i: usize = 0;
    proof {
        assert(chars@.skip(0) =~= chars@);
    }
    while i < n && is_space(chars[i])
        invariant
            i <= n,
            n == chars@.len(),
            trimmed_start(chars@.skip(i as int)) == trimmed_start(chars@),
        decreases n - i,
    {
        proof {
            assert(chars@.skip(i as int).skip(1) =~= chars@.skip(i + 1));
        }
        i = i + 1;
    }
    i
}

/// Drops the whitespace at both ends of `s`.
pub fn trim(s: &str) -> (r: String)
    ensures
        r@ == trimmed(s@),
{
    let mut chars: Vec<char> = chars_of(s);
    let at: usize = start_of_text(&chars);
    let mut body: Vec<char> = chars.split_off(at);
    proof {
        assert(body@ =~= s@.skip(at as int));
    }
    while body.len() > 0 && is_space(body[body.len() - 1])
        invariant
            trimmed_end(body@) == trimmed(s@),
        decreases body@.len(),
    {
        let _ = body.pop();
    }
    text_of(&body)
}

/// The first whitespace-separated word of `s`, if it has one.
pub fn first_word(s: &str) -> (r: Option<String>)
    ensures
        match r {
            Some(w) => first_word_of(s@) == Some(w@),
            None => first_word_of(s@) is None,
        },
{
    let chars: Vec<char> = chars_of(s);
    let n: usize = chars.len();
    let at: usize = start_of_text(&chars);
    if at == n {
        return None;
    }
    let mut word: String = String::new();
    let mut i: usize = at;
    let ghost rest = trimmed_start(s@);
    while i < n && !is_space(chars[i])
        invariant
            at <= i <= n,
            n == chars@.len(),
            chars@ == s@,
            rest == chars@.skip(at as int),
            up_to_space(rest) == word@ + up_to_space(chars@.skip(i as int)),
        decreases n - i,
    {
        proof {
            assert(chars@.skip(i as int).skip(1) =~= chars@.skip(i + 1));
            assert(word@ + (seq![chars@[i as int]] + up_to_space(chars@.skip(i + 1))) =~= word@.push(
                chars@[i as int],
            ) + up_to_space(chars@.skip(i + 1)));
        }
        push_char(&mut word, chars[i]);
        i = i + 1;
    }
    proof {
        assert(up_to_space(chars@.skip(i as int)) =~= Seq::<char>::empty());
        assert(word@ + Seq::<char>::empty() =~= word@);
    }
    Some(word)
}

// ── Numbers ─────────────────────────────────────────────────────────

/// The character of a decimal digit.
pub open spec fn digit_char(d: nat) -> char
    recommends
        d < 10,
{
    (d + 48) as char
}

/// `n` in decimal, without leading zeros.
pub open spec fn decimal_of(n: nat) -> Seq<char>
    decreases n,
{
    if n < 10 {
        seq![digit_char(n)]
    } else {
        decimal_of(n / 10).push(digit_char(n % 10))
    }
}

/// `n` in decimal with at least two digits.
pub open spec fn two_digits_of(n: nat) -> Seq<char> {
    if n < 10 {
        seq!['0'] + decimal_of(n)
    } else {
        decimal_of(n)
    }
}

/// The digit `d` as a character.
fn digit(d: u64) -> (c: char)
    requires
        d < 10,
    ensures
        c == digit_char(d as nat),
{
    let code: u8 = 48 + d as u8;
    code as char
}

/// `n` in decimal.
pub fn decimal(n: u64) -> (r: String)
    ensures
        r@ == decimal_of(n as nat),
    decreases n,
{
    if n < 10 {
        let mut out: String = String::new();
        push_char(&mut out, digit(n));
        proof {
            assert(Seq::<char>::empty().push(digit_char(n as nat)) =~= seq![digit_char(n as nat)]);
        }
        out
    } else {
        let mut out: String = decimal(n / 10);
        push_char(&mut out, digit(n % 10));
        out
    }
}

/// `n` in decimal, padded with a zero to two digits.
pub fn two_digits(n: u64) -> (r: String)
    ensures
        r@ == two_digits_of(n as nat),
{
    if n < 10 {
        let d: String = decimal(n);
        let mut out: String = String::new();
        push_char(&mut out, '0');
        push_text(&mut out, &d);
        proof {
            assert(Seq::<char>::empty().push('0') =~= seq!['0']);
        }
        out
    } else {
        decimal(n)
    }
}

/// Minutes and seconds, as "mm:ss".
pub open spec fn clock_text(secs: nat) -> Seq<char> {
    two_digits_of(secs / 60) + seq![':'] + two_digits_of(secs % 60)
}

/// Format seconds into an "mm:ss" string.
pub fn format_time(secs: u64) -> (r: String)
    ensures
        r@ == clock_text(secs as nat),
{
    let mut out: String = two_digits(secs / 60);
    push_char(&mut out, ':');
    let tail: String = two_digits(secs % 60);
    push_text(&mut out, &tail);
    proof {
        let a = two_digits_of((secs / 60) as nat);
        assert(a.push(':') =~= a + seq![':']);
    }
    out
}

/// An ASCII decimal digit.
pub open spec fn digit_like(c: char) -> bool {
    '0' <= c <= '9'
}

/// The number that a row of digits writes.
pub open spec fn digits_value(s: Seq<char>) -> nat
    decreases s.len(),
{
    if s.len() == 0 {
        0
    } else {
        digits_value(s.drop_last()) * 10 + (s.last() as nat - 48) as nat
    }
}

/// One digit or more, and nothing else.
pub open spec fn all_digits(s: Seq<char>) -> bool {
    s.len() > 0 && forall|i: int| 0 <= i < s.len() ==> digit_like(#[trigger] s[i])
}

/// The number at most `max` that `s` writes: digits, with a `+` before them or
/// not.
pub open spec fn unsigned_of(s: Seq<char>, max: nat) -> Option<nat> {
    let body = if s.len() > 0 && s[0] == '+' {
        s.skip(1)
    } else {
        s
    };
    if all_digits(body) && digits_value(body) <= max {
        Some(digits_value(body))
    } else {
        None
    }
}

/// The 64-bit signed number that `s` writes: digits, with a sign or not.
pub open spec fn signed_of(s: Seq<char>) -> Option<int> {
    if s.len() > 0 && s[0] == '-' {
        let body = s.skip(1);
        if all_digits(body) && digits_value(body) <= 0x8000_0000_0000_0000 {
            Some(-(digits_value(body) as int))
        } else {
            None
        }
    } else {
        match unsigned_of(s, i64::MAX as nat) {
            Some(n) => Some(n as int),
            None => None,
        }
    }
}

/// A longer row of digits writes no smaller number.
proof fn digits_value_grows(s: Seq<char>, i: int)
    requires
        0 <= i <= s.len(),
        forall|k: int| 0 <= k < s.len() ==> digit_like(#[trigger] s[k]),
    ensures
        digits_value(s.take(i)) <= digits_value(s),
    decreases s.len(),
{
    if i == s.len() {
        assert(s.take(i) =~= s);
    } else {
        let init = s.drop_last();
        digits_value_grows(init, i);
        assert(init.take(i) =~= s.take(i));
    }
}

/// Reads `chars` from `from` on as a row of digits of value `max` at most.
fn digits_from(chars: &Vec<char>, from: usize, max: u64) -> (r: Option<u64>)
    requires
        from <= chars@.len(),
    ensures
        match r {
            Some(v) => all_digits(chars@.skip(from as int)) && digits_value(
                chars@.skip(from as int),
            ) == v && v <= max,
            None => !all_digits(chars@.skip(from as int)) || digits_value(chars@.skip(from as int))
                > max,
        },
{
    let n: usize = chars.len();
    if from == n {
        return None;
    }
    let ghost body = chars@.skip(from as int);
    let mut value: u64 = 0;
    let mut i: usize = from;
    while i < n
        invariant
            from <= i <= n,
            n == chars@.len(),
            body == chars@.skip(from as int),
            value <= max,
            digits_value(body.take(i - from)) == value,
            forall|k: int| 0 <= k < i - from ==> digit_like(#[trigger] body[k]),
        decreases n - i,
    {
        let c: char = chars[i];
        proof {
            assert(body[i - from] == c);
            assert(body.take(i - from + 1).drop_last() =~= body.take(i - from));
        }
        if !('0' <= c && c <= '9') {
            return None;
        }
        let d: u64 = (c as u32 - 48) as u64;
        let wide: u128 = value as u128 * 10 + d as u128;
        proof {
            assert(digits_value(body.take(i - from + 1)) == wide);
        }
        if wide > max as u128 {
            proof {
                if all_digits(body) {
                    digits_value_grows(body, i - from + 1);
                }
            }
            return None;
        }
        value = wide as u64;
        i = i + 1;
    }
    proof {
        assert(body.take(body.len() as int) =~= body);
    }
    Some(value)
}

/// Reads `s` as an unsigned number of value `max` at most.
pub fn parse_unsigned(s: &str, max: u64) -> (r: Option<u64>)
    ensures
        match r {
            Some(v) => unsigned_of(s@, max as nat) == Some(v as nat),
            None => unsigned_of(s@, max as nat) is None,
        },
{
    let chars: Vec<char> = chars_of(s);
    let from: usize = if chars.len() > 0 && chars[0] == '+' {
        1
    } else {
        0
    };
    proof {
        assert(chars@.skip(0) =~= chars@);
    }
    digits_from(&chars, from, max)
}

/// Reads `s` as a 64-bit signed number.
pub fn parse_signed(s: &str) -> (r: Option<i64>)
    ensures
        match r {
            Some(v) => signed_of(s@) == Some(v as int),
            None => signed_of(s@) is None,
        },
{
    let chars: Vec<char> = chars_of(s);
    if chars.len() > 0 && chars[0] == '-' {
        match digits_from(&chars, 1, 0x8000_0000_0000_0000) {
            Some(v) => {
                if v == 0x8000_0000_0000_0000 {
                    Some(i64::MIN)
                } else {
                    Some(-(v as i64))
                }
            },
            None => None,
        }
    } else {
        match parse_unsigned(s, i64::MAX as u64) {
            Some(v) => Some(v as i64),
            None => None,
        }
    }
}

/// Reading back a number that was written in decimal gives that number.
pub proof fn decimal_reads_back(n: nat, max: nat)
    requires
        n <= max,
    ensures
        unsigned_of(decimal_of(n), max) == Some(n),
{
    decimal_is_digits(n);
}

/// A number in decimal is a row of digits that writes it.
proof fn decimal_is_digits(n: nat)
    ensures
        all_digits(decimal_of(n)),
        digits_value(decimal_of(n)) == n,
    decreases n,
{
    reveal_with_fuel(digits_value, 2);
    if n >= 10 {
        decimal_is_digits(n / 10);
        let s = decimal_of(n / 10);
        assert(s.push(digit_char(n % 10)).drop_last() =~= s);
    } else {
        assert(decimal_of(n).drop_last() =~= Seq::<char>::empty());
    }
}

// ── Searching and matching ──────────────────────────────────────────

/// `needle` stands in `hay` at position `at`.
pub open spec fn occurs_at(hay: Seq<char>, needle: Seq<char>, at: int) -> bool {
    0 <= at <= hay.len() - needle.len() && hay.subrange(at, at + needle.len()) == needle
}

/// `needle` stands somewhere in `hay`.
pub open spec fn occurs(hay: Seq<char>, needle: Seq<char>) -> bool {
    exists|at: int| occurs_at(hay, needle, at)
}

/// Whether `needle` stands in `hay` at `at`.
fn matches_at(hay: &Vec<char>, needle: &Vec<char>, at: usize) -> (r: bool)
    requires
        at + needle@.len() <= hay@.len(),
    ensures
        r == occurs_at(hay@, needle@, at as int),
{
    let n: usize = hay.len();
    let m: usize = needle.len();
    let mut j: usize = 0;
    while j < m
        invariant
            j <= m,
            n == hay@.len(),
            m == needle@.len(),
            at + m <= n,
            forall|k: int| 0 <= k < j ==> hay@[at + k] == needle@[k],
        decreases m - j,
    {
        if hay[at + j] != needle[j] {
            proof {
                assert(hay@.subrange(at as int, at + m)[j as int] != needle@[j as int]);
            }
            return false;
        }
        j = j + 1;
    }
    proof {
        assert(hay@.subrange(at as int, at + m) =~= needle@);
    }
    true
}

/// Whether `needle` stands somewhere in `hay`.
pub fn contains(hay: &str, needle: &str) -> (r: bool)
    ensures
        r == occurs(hay@, needle@),
{
    let h: Vec<char> = chars_of(hay);
    let d: Vec<char> = chars_of(needle);
    if d.len() > h.len() {
        return false;
    }
    let last: usize = h.len() - d.len();
    let mut at: usize = 0;
    while at <= last
        invariant
            at <= last + 1,
            last == h@.len() - d@.len(),
            h@ == hay@,
            d@ == needle@,
            forall|k: int| 0 <= k < at ==> !occurs_at(hay@, needle@, k),
        decreases last + 1 - at,
    {
        if matches_at(&h, &d, at) {
            return true;
        }
        if at == last {
            return false;
        }
        at = at + 1;
    }
    false
}

/// Whether `s` begins with `prefix`.
pub fn starts_with(s: &str, prefix: &str) -> (r: bool)
    ensures
        r == occurs_at(s@, prefix@, 0),
{
    let h: Vec<char> = chars_of(s);
    let d: Vec<char> = chars_of(prefix);
    if d.len() > h.len() {
        return false;
    }
    matches_at(&h, &d, 0)
}

/// The characters of `query` appear in `target` in order, not necessarily next
/// to each other.
pub open spec fn subsequence(query: Seq<char>, target: Seq<char>) -> bool
    decreases target.len(),
{
    if query.len() == 0 {
        true
    } else if target.len() == 0 {
        false
    } else if query[0] == target[0] {
        subsequence(query.skip(1), target.skip(1))
    } else {
        subsequence(query, target.skip(1))
    }
}

/// Fuzzy match: every character of `query` appears in `target` as a
/// subsequence. Both inputs should already be lowercased by the caller.
pub fn fuzzy_match(query: &str, target: &str) -> (r: bool)
    ensures
        r == subsequence(query@, target@),
{
    let q: Vec<char> = chars_of(query);
    let t: Vec<char> = chars_of(target);
    let mut i: usize = 0;
    let mut j: usize = 0;
    proof {
        assert(q@.skip(0) =~= q@);
        assert(t@.skip(0) =~= t@);
    }
    while i < q.len() && j < t.len()
        invariant
            i <= q@.len(),
            j <= t@.len(),
            subsequence(q@.skip(i as int), t@.skip(j as int)) == subsequence(q@, t@),
        decreases t@.len() - j,
    {
        proof {
            assert(q@.skip(i as int).skip(1) =~= q@.skip(i + 1));
            assert(t@.skip(j as int).skip(1) =~= t@.skip(j + 1));
        }
        if q[i] == t[j] {
            i = i + 1;
        }
        j = j + 1;
    }
    i == q.len()
}

/// A match stays a match when a character is put before the target.
proof fn subsequence_after_more(query: Seq<char>, target: Seq<char>, c: char)
    requires
        subsequence(query, target),
    ensures
        subsequence(query, seq![c] + target),
    decreases target.len(), query.len(), 1int,
{
    let longer = seq![c] + target;
    assert(longer.skip(1) =~= target);
    if query.len() > 0 && query[0] == c {
        subsequence_drop_first(query, target);
    }
}

/// Helper of `subsequence_after_more`: the query without its first character
/// still matches.
proof fn subsequence_drop_first(query: Seq<char>, target: Seq<char>)
    requires
        query.len() > 0,
        subsequence(query, target),
    ensures
        subsequence(query.skip(1), target),
    decreases target.len(), query.len(), 0int,
{
    let rest = target.skip(1);
    assert(seq![target[0]] + rest =~= target);
    if query[0] == target[0] {
        subsequence_after_more(query.skip(1), rest, target[0]);
    } else {
        subsequence_drop_first(query, rest);
        subsequence_after_more(query.skip(1), rest, target[0]);
    }
}

/// Every text matches itself.
pub proof fn fuzzy_match_is_reflexive(s: Seq<char>)
    ensures
        subsequence(s, s),
    decreases s.len(),
{
    if s.len() > 0 {
        fuzzy_match_is_reflexive(s.skip(1));
    }
}

/// A query that matches a text matches whatever that text matches.
pub proof fn fuzzy_match_is_transitive(a: Seq<char>, b: Seq<char>, c: Seq<char>)
    requires
        subsequence(a, b),
        subsequence(b, c),
    ensures
        subsequence(a, c),
    decreases c.len(),
{
    if a.len() > 0 {
        if b[0] == c[0] {
            if a[0] == b[0] {
                fuzzy_match_is_transitive(a.skip(1), b.skip(1), c.skip(1));
            } else {
                fuzzy_match_is_transitive(a, b.skip(1), c.skip(1));
            }
        } else {
            fuzzy_match_is_transitive(a, b, c.skip(1));
            if a[0] == c[0] {
                subsequence_drop_first(a, c.skip(1));
            }
        }
    }
}

/// The empty query matches everything.
pub proof fn fuzzy_match_of_empty(target: Seq<char>)
    ensures
        subsequence(Seq::<char>::empty(), target),
{
}

/// A text without whitespace is one word.
pub proof fn no_space_is_one_word(s: Seq<char>)
    requires
        s.len() > 0,
        forall|i: int| 0 <= i < s.len() ==> !space(#[trigger] s[i]),
    ensures
        first_word_of(s) == Some(s),
{
    up_to_end(s);
}

/// A text without whitespace reaches to its end.
proof fn up_to_end(s: Seq<char>)
    requires
        forall|i: int| 0 <= i < s.len() ==> !space(#[trigger] s[i]),
    ensures
        up_to_space(s) == s,
    decreases s.len(),
{
    if s.len() > 0 {
        up_to_end(s.skip(1));
        assert(seq![s[0]] + s.skip(1) =~= s);
    }
}

/// A number in decimal is one word.
pub proof fn decimals_are_one_word(n: nat)
    ensures
        first_word_of(decimal_of(n)) == Some(decimal_of(n)),
{
    decimal_is_digits(n);
    let s = decimal_of(n);
    assert forall|i: int| 0 <= i < s.len() implies !space(#[trigger] s[i]) by {
        assert(digit_like(s[i]));
    }
    no_space_is_one_word(s);
}

/// A number in decimal begins with a digit.
pub proof fn decimal_starts_with_digit(n: nat)
    ensures
        decimal_of(n).len() > 0,
        digit_like(decimal_of(n)[0]),
{
    decimal_is_digits(n);
}

/// `s` before and after the first `c` in it.
pub open spec fn split_at(s: Seq<char>, c: char) -> Option<(Seq<char>, Seq<char>)> {
    match s.index_of_first(c) {
        Some(i) => Some((s.take(i), s.skip(i + 1))),
        None => None,
    }
}

/// What stands in `s` before and after the first `c`.
pub fn split_once(s: &str, c: char) -> (r: Option<(String, String)>)
    ensures
        match r {
            Some((a, b)) => split_at(s@, c) == Some((a@, b@)) && b@.len() < s@.len(),
            None => split_at(s@, c) is None,
        },
{
    let chars: Vec<char> = chars_of(s);
    let mut i: usize = 0;
    while i < chars.len()
        invariant
            i <= chars@.len(),
            chars@ == s@,
            forall|k: int| 0 <= k < i ==> s@[k] != c,
        decreases chars@.len() - i,
    {
        if chars[i] == c {
            let mut a: String = String::new();
            let mut b: String = String::new();
            let mut k: usize = 0;
            while k < chars.len()
                invariant
                    k <= chars@.len(),
                    i < chars@.len(),
                    chars@ == s@,
                    a@ == s@.take(if k <= i { k as int } else { i as int }),
                    b@ == (if k <= i { Seq::empty() } else { s@.subrange(i + 1, k as int) }),
                decreases chars@.len() - k,
            {
                if k < i {
                    push_char(&mut a, chars[k]);
                    proof {
                        assert(a@ =~= s@.take(k + 1));
                    }
                } else if k > i {
                    push_char(&mut b, chars[k]);
                    proof {
                        assert(b@ =~= s@.subrange(i + 1, k + 1));
                    }
                } else {
                    proof {
                        assert(s@.subrange(i + 1, k + 1) =~= Seq::<char>::empty());
                    }
                }
                k = k + 1;
            }
            proof {
                s@.index_of_first_ensures(c);
                assert(s@[i as int] == c);
                assert(s@.contains(c));
                assert(b@ =~= s@.skip(i + 1));
            }
            return Some((a, b));
        }
        i = i + 1;
    }
    proof {
        s@.index_of_first_ensures(c);
    }
    None
}

/// What is left of a text without the blanks around it neither begins nor ends
/// with a blank, and what was cut off at either end is nothing but blanks.
pub proof fn trimming_cuts_blanks(s: Seq<char>)
    ensures
        ({
            let r = trimmed(s);
            &&& r.len() > 0 ==> !space(r[0]) && !space(r.last())
            &&& exists|from: int, to: int|
                #![trigger s.subrange(from, to)]
                0 <= from <= to <= s.len() && r == s.subrange(from, to) && (forall|i: int|
                    0 <= i < from ==> space(#[trigger] s[i])) && (forall|i: int|
                    to <= i < s.len() ==> space(#[trigger] s[i]))
        }),
{
    let from = cut_at_start(s);
    let rest = s.skip(from);
    assert(trimmed_start(s) =~= rest);
    let to = cut_at_end(rest);
    let r = trimmed(s);
    assert(r =~= rest.take(to));
    assert(r =~= s.subrange(from, from + to));
    assert forall|i: int| from + to <= i < s.len() implies space(#[trigger] s[i]) by {
        assert(rest[i - from] == s[i]);
    }
    if r.len() > 0 {
        assert(r[0] == rest[0]);
        assert(rest[0] == s[from]);
    }
}

/// How much is cut off at the start.
proof fn cut_at_start(s: Seq<char>) -> (from: int)
    ensures
        0 <= from <= s.len(),
        trimmed_start(s) == s.skip(from),
        forall|i: int| 0 <= i < from ==> space(#[trigger] s[i]),
        from < s.len() ==> !space(s[from]),
    decreases s.len(),
{
    if s.len() > 0 && space(s[0]) {
        let rest = s.skip(1);
        let n = cut_at_start(rest);
        assert(s.skip(n + 1) =~= rest.skip(n));
        assert forall|i: int| 0 <= i < n + 1 implies space(#[trigger] s[i]) by {
            if i > 0 {
                assert(rest[i - 1] == s[i]);
            }
        }
        if n + 1 < s.len() {
            assert(rest[n] == s[n + 1]);
        }
        n + 1
    } else {
        assert(s.skip(0) =~= s);
        0
    }
}

/// Where the end is cut off.
proof fn cut_at_end(s: Seq<char>) -> (to: int)
    ensures
        0 <= to <= s.len(),
        trimmed_end(s) == s.take(to),
        forall|i: int| to <= i < s.len() ==> space(#[trigger] s[i]),
        to > 0 ==> !space(s[to - 1]),
    decreases s.len(),
{
    if s.len() > 0 && space(s.last()) {
        let rest = s.drop_last();
        let n = cut_at_end(rest);
        assert(s.take(n) =~= rest.take(n));
        assert forall|i: int| n <= i < s.len() implies space(#[trigger] s[i]) by {
            if i < rest.len() {
                assert(rest[i] == s[i]);
            }
        }
        n
    } else {
        assert(s.take(s.len() as int) =~= s);
        s.len() as int
    }
}

/// A clock shows whole minutes and the seconds over them, each with two digits at
/// least and a colon between.
pub proof fn clocks_show_minutes_and_seconds(minutes: nat, seconds: nat)
    requires
        seconds < 60,
        minutes < 100,
    ensures
        ({
            let r = clock_text(minutes * 60 + seconds);
            &&& r.len() == 5
            &&& r[0] as nat == 48 + minutes / 10
            &&& r[1] as nat == 48 + minutes % 10
            &&& r[2] == ':'
            &&& r[3] as nat == 48 + seconds / 10
            &&& r[4] as nat == 48 + seconds % 10
        }),
{
    assert((minutes * 60 + seconds) / 60 == minutes);
    assert((minutes * 60 + seconds) % 60 == seconds);
    two_digits_show(minutes);
    two_digits_show(seconds);
    let a = two_digits_of(minutes);
    let b = two_digits_of(seconds);
    let r = clock_text(minutes * 60 + seconds);
    assert(r =~= a + seq![':'] + b);
}

/// A number below a hundred with two digits.
proof fn two_digits_show(n: nat)
    requires
        n < 100,
    ensures
        two_digits_of(n).len() == 2,
        two_digits_of(n)[0] as nat == 48 + n / 10,
        two_digits_of(n)[1] as nat == 48 + n % 10,
{
    reveal_with_fuel(decimal_of, 3);
}

/// Texts are ordered by their first letters; where these agree the rest decides,
/// and a beginning comes before the whole.
pub proof fn first_letters_decide(a: char, b: char, s: Seq<char>, t: Seq<char>)
    ensures
        a < b ==> before(seq![a] + s, seq![b] + t),
        a > b ==> !before(seq![a] + s, seq![b] + t),
        before(seq![a] + s, seq![a] + t) == before(s, t),
        before(Seq::empty(), seq![a] + s),
        !before(seq![a] + s, Seq::empty()),
{
    let x = seq![a] + s;
    let y = seq![b] + t;
    let z = seq![a] + t;
    assert(x.skip(1) =~= s);
    assert(y.skip(1) =~= t);
    assert(z.skip(1) =~= t);
}

} // verus!
