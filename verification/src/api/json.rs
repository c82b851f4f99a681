//! JSON values, as the service's answers and requests hold them.

use vstd::prelude::*;

use crate::text;
use crate::text::{decimal, owned, parse_unsigned, same_text};

verus! {

/// A JSON value.
#[derive(Debug)]
pub enum Json {
    Null,
    Bool(bool),
    /// A number from zero up.
    UInt(u64),
    /// A negative number.
    Int(i64),
    /// Any other number, as it is written.
    Fraction(String),
    Str(String),
    Array(Vec<Json>),
    Object(Vec<JsonField>),
}

/// A field of a JSON object.
#[derive(Debug)]
pub struct JsonField {
    pub key: String,
    pub value: Json,
}

/// The value of the first field with this key.
pub open spec fn field_of(fields: Seq<JsonField>, key: Seq<char>) -> Option<Json>
    decreases fields.len(),
{
    if fields.len() == 0 {
        None
    } else if fields[0].key@ == key {
        Some(fields[0].value)
    } else {
        field_of(fields.skip(1), key)
    }
}

/// The value of a field, where there is one.
pub open spec fn at(j: Json, key: Seq<char>) -> Option<Json> {
    match j {
        Json::Object(fields) => field_of(fields@, key),
        _ => None,
    }
}

/// The value of a field of a field.
pub open spec fn at2(j: Json, key: Seq<char>, inner: Seq<char>) -> Option<Json> {
    match at(j, key) {
        Some(v) => at(v, inner),
        None => None,
    }
}

/// The value three fields down.
pub open spec fn at3(j: Json, key: Seq<char>, inner: Seq<char>, last: Seq<char>) -> Option<Json> {
    match at2(j, key, inner) {
        Some(v) => at(v, last),
        None => None,
    }
}

/// The text that a value is.
pub open spec fn as_text(j: Option<Json>) -> Option<Seq<char>> {
    match j {
        Some(Json::Str(s)) => Some(s@),
        _ => None,
    }
}

/// The number from zero up that a value is.
pub open spec fn as_count(j: Option<Json>) -> Option<u64> {
    match j {
        Some(Json::UInt(n)) => Some(n),
        _ => None,
    }
}

/// The whole number that a value is.
pub open spec fn as_whole(j: Option<Json>) -> Option<i64> {
    match j {
        Some(Json::UInt(n)) => if n <= i64::MAX {
            Some(n as i64)
        } else {
            None
        },
        Some(Json::Int(n)) => Some(n),
        _ => None,
    }
}

/// The list that a value is.
pub open spec fn as_list(j: Option<Json>) -> Option<Seq<Json>> {
    match j {
        Some(Json::Array(a)) => Some(a@),
        _ => None,
    }
}

/// What stands first in a list, or at the key `0` of an object.
pub open spec fn zeroth(j: Option<Json>) -> Option<Json> {
    match j {
        Some(Json::Array(a)) => if a@.len() > 0 {
            Some(a@[0])
        } else {
            None
        },
        Some(Json::Object(fields)) => field_of(fields@, "0"@),
        _ => None,
    }
}

/// The text of a field; empty where there is none.
pub open spec fn text_at(j: Json, key: Seq<char>) -> Seq<char> {
    text_or(at(j, key), Seq::empty())
}

/// The text that a value is, or another one.
pub open spec fn text_or(j: Option<Json>, other: Seq<char>) -> Seq<char> {
    match as_text(j) {
        Some(t) => t,
        None => other,
    }
}

/// The number of a field; zero where there is none.
pub open spec fn count_at(j: Json, key: Seq<char>) -> u64 {
    match as_count(at(j, key)) {
        Some(n) => n,
        None => 0,
    }
}

/// The text of a value that may be given as a number. The same field can be a
/// number in one answer and a text in another.
pub open spec fn id_text(j: Option<Json>) -> Option<Seq<char>> {
    match j {
        Some(Json::Str(s)) => Some(s@),
        Some(Json::UInt(n)) => Some(text::decimal_of(n as nat)),
        _ => None,
    }
}

/// The number of a value that may be given as a text.
pub open spec fn loose_count(j: Option<Json>) -> Option<u64> {
    match j {
        Some(Json::UInt(n)) => Some(n),
        Some(Json::Str(s)) => match text::unsigned_of(s@, u64::MAX as nat) {
            Some(n) => Some(n as u64),
            None => None,
        },
        _ => None,
    }
}

/// What a reference points to.
pub open spec fn pointed(r: Option<&Json>) -> Option<Json> {
    match r {
        Some(v) => Some(*v),
        None => None,
    }
}

impl Json {
    /// The value of a field.
    pub fn get(&self, key: &str) -> (r: Option<&Json>)
        ensures
            pointed(r) == at(*self, key@),
    {
        match self {
            Json::Object(fields) => find_field(fields, key),
            _ => None,
        }
    }

    /// The value two fields down.
    pub fn get2(&self, key: &str, inner: &str) -> (r: Option<&Json>)
        ensures
            pointed(r) == at2(*self, key@, inner@),
    {
        match self.get(key) {
            Some(v) => v.get(inner),
            None => None,
        }
    }

    /// The value three fields down.
    pub fn get3(&self, key: &str, inner: &str, last: &str) -> (r: Option<&Json>)
        ensures
            pointed(r) == at3(*self, key@, inner@, last@),
    {
        match self.get2(key, inner) {
            Some(v) => v.get(last),
            None => None,
        }
    }

    /// The text of a field; empty where there is none.
    pub fn text_at(&self, key: &str) -> (r: String)
        ensures
            r@ == text_at(*self, key@),
    {
        text_or_empty(self.get(key))
    }

    /// The number of a field; zero where there is none.
    pub fn count_at(&self, key: &str) -> (r: u64)
        ensures
            r == count_at(*self, key@),
    {
        match count_of(self.get(key)) {
            Some(n) => n,
            None => 0,
        }
    }
}

/// The value of the first field with this key.
fn find_field<'a>(fields: &'a Vec<JsonField>, key: &str) -> (r: Option<&'a Json>)
    ensures
        pointed(r) == field_of(fields@, key@),
{
    let n: usize = fields.len();
    let mut i: usize = 0;
    proof {
        assert(fields@.skip(0) =~= fields@);
    }
    while i < n
        invariant
            i <= n,
            n == fields@.len(),
            field_of(fields@, key@) == field_of(fields@.skip(i as int), key@),
        decreases n - i,
    {
        proof {
            assert(fields@.skip(i as int)[0] == fields@[i as int]);
            assert(fields@.skip(i as int).skip(1) =~= fields@.skip(i + 1));
        }
        if same_text(&fields[i].key, key) {
            return Some(&fields[i].value);
        }
        i = i + 1;
    }
    None
}

/// The text that a value is; empty where it is none.
pub fn text_or_empty(j: Option<&Json>) -> (r: String)
    ensures
        r@ == text_or(pointed(j), Seq::empty()),
{
    match j {
        Some(Json::Str(s)) => s.clone(),
        _ => String::new(),
    }
}

/// The text that a value is.
pub fn text_of_value(j: Option<&Json>) -> (r: Option<String>)
    ensures
        crate::models::opt_text(r) == as_text(pointed(j)),
{
    match j {
        Some(Json::Str(s)) => Some(s.clone()),
        _ => None,
    }
}

/// The number that a value is.
pub fn count_of(j: Option<&Json>) -> (r: Option<u64>)
    ensures
        r == as_count(pointed(j)),
{
    match j {
        Some(Json::UInt(n)) => Some(*n),
        _ => None,
    }
}

/// The whole number that a value is.
pub fn whole_of(j: Option<&Json>) -> (r: Option<i64>)
    ensures
        r == as_whole(pointed(j)),
{
    match j {
        Some(Json::UInt(n)) => {
            if *n <= i64::MAX as u64 {
                Some(*n as i64)
            } else {
                None
            }
        },
        Some(Json::Int(n)) => Some(*n),
        _ => None,
    }
}

/// The list that a value is.
pub fn list_of<'a>(j: Option<&'a Json>) -> (r: Option<&'a Vec<Json>>)
    ensures
        match r {
            Some(a) => as_list(pointed(j)) == Some(a@),
            None => as_list(pointed(j)) is None,
        },
{
    match j {
        Some(Json::Array(a)) => Some(a),
        _ => None,
    }
}

/// What stands first in a list, or at the key `0` of an object.
pub fn first_of<'a>(j: Option<&'a Json>) -> (r: Option<&'a Json>)
    ensures
        pointed(r) == zeroth(pointed(j)),
{
    match j {
        Some(Json::Array(a)) => if a.len() > 0 {
            Some(&a[0])
        } else {
            None
        },
        Some(Json::Object(fields)) => find_field(fields, "0"),
        _ => None,
    }
}

/// The text of a value that may be given as a number.
pub fn value_string(j: Option<&Json>) -> (r: Option<String>)
    ensures
        crate::models::opt_text(r) == id_text(pointed(j)),
{
    match j {
        Some(Json::Str(s)) => Some(s.clone()),
        Some(Json::UInt(n)) => Some(decimal(*n)),
        _ => None,
    }
}

/// The number of a value that may be given as a text.
pub fn value_u64(j: Option<&Json>) -> (r: Option<u64>)
    ensures
        r == loose_count(pointed(j)),
{
    match j {
        Some(Json::UInt(n)) => Some(*n),
        Some(Json::Str(s)) => parse_unsigned(s, u64::MAX),
        _ => None,
    }
}

/// The first value of the two that is there.
pub open spec fn either(a: Option<Json>, b: Option<Json>) -> Option<Json> {
    match a {
        Some(_) => a,
        None => b,
    }
}

/// The first value of the two that is there.
pub fn first_present<'a>(a: Option<&'a Json>, b: Option<&'a Json>) -> (r: Option<&'a Json>)
    ensures
        pointed(r) == either(pointed(a), pointed(b)),
{
    match a {
        Some(v) => Some(v),
        None => b,
    }
}

// ── Reading lists ───────────────────────────────────────────────────

/// A way to read one kind of thing from a JSON value.
pub trait JsonReader {
    type Item;

    /// The value holds such a thing.
    spec fn readable(j: Json) -> bool;

    /// The thing is what the value says.
    spec fn says(j: Json, item: Self::Item) -> bool;

    /// Reads the thing.
    fn read(j: &Json) -> (r: Option<Self::Item>)
        ensures
            r is Some <==> Self::readable(*j),
            r matches Some(item) ==> Self::says(*j, item),
    ;
}

/// The test for a value that can be read.
pub open spec fn can_read<R: JsonReader>() -> spec_fn(Json) -> bool {
    |j: Json| R::readable(j)
}

/// The things are those that the list holds, in order; what cannot be read is
/// left out.
pub open spec fn read_from<R: JsonReader>(s: Seq<Json>, items: Seq<R::Item>) -> bool {
    let kept = s.filter(can_read::<R>());
    &&& items.len() == kept.len()
    &&& forall|i: int| 0 <= i < items.len() ==> R::says(kept[i], #[trigger] items[i])
}

/// Reads the things of a list.
pub fn read_list<R: JsonReader>(list: &Vec<Json>) -> (r: Vec<R::Item>)
    ensures
        read_from::<R>(list@, r@),
{
    let n: usize = list.len();
    let mut out: Vec<R::Item> = Vec::new();
    let mut i: usize = 0;
    proof {
        reveal(Seq::filter);
        assert(list@.take(0) =~= Seq::empty());
    }
    while i < n
        invariant
            i <= n,
            n == list@.len(),
            read_from::<R>(list@.take(i as int), out@),
        decreases n - i,
    {
        let ghost before = out@;
        let ghost kept = list@.take(i as int).filter(can_read::<R>());
        proof {
            reveal(Seq::filter);
            assert(list@.take(i + 1).drop_last() =~= list@.take(i as int));
            assert(list@.take(i + 1).last() == list@[i as int]);
        }
        match R::read(&list[i]) {
            Some(item) => {
                out.push(item);
                proof {
                    let now = list@.take(i + 1).filter(can_read::<R>());
                    assert(now == kept.push(list@[i as int]));
                    assert forall|k: int| 0 <= k < out@.len() implies R::says(
                        now[k],
                        #[trigger] out@[k],
                    ) by {
                        if k < before.len() {
                            assert(out@[k] == before[k]);
                            assert(now[k] == kept[k]);
                        }
                    }
                }
            },
            None => {},
        }
        i = i + 1;
    }
    proof {
        assert(list@.take(n as int) =~= list@);
    }
    out
}

/// The list at a place, or an empty one.
pub open spec fn list_or_empty(j: Option<Json>) -> Seq<Json> {
    match as_list(j) {
        Some(s) => s,
        None => Seq::empty(),
    }
}

/// Reads the things of a list that may be missing.
pub fn read_optional<R: JsonReader>(j: Option<&Json>) -> (r: Vec<R::Item>)
    ensures
        read_from::<R>(list_or_empty(pointed(j)), r@),
{
    match list_of(j) {
        Some(list) => read_list::<R>(list),
        None => {
            let empty: Vec<Json> = Vec::new();
            read_list::<R>(&empty)
        },
    }
}

// ── Writing requests ────────────────────────────────────────────────

/// What a value of a request says.
pub enum Param {
    Nothing,
    Flag(bool),
    Num(u64),
    Text(Seq<char>),
    List(Seq<Param>),
    Record(Seq<(Seq<char>, Param)>),
}

/// A JSON value says this.
pub open spec fn says(j: Json, p: Param) -> bool
    decreases j,
{
    match (j, p) {
        (Json::Null, Param::Nothing) => true,
        (Json::Bool(b), Param::Flag(f)) => b == f,
        (Json::UInt(n), Param::Num(m)) => n == m,
        (Json::Str(s), Param::Text(t)) => s@ == t,
        (Json::Array(a), Param::List(l)) => {
            &&& a@.len() == l.len()
            &&& forall|i: int| 0 <= i < l.len() ==> says(#[trigger] a@[i], l[i])
        },
        (Json::Object(fields), Param::Record(l)) => {
            &&& fields@.len() == l.len()
            &&& forall|i: int|
                0 <= i < l.len() ==> (#[trigger] fields@[i]).key@ == l[i].0 && says(
                    fields@[i].value,
                    l[i].1,
                )
        },
        _ => false,
    }
}

/// A field of a request.
pub fn field(key: &str, value: Json) -> (r: JsonField)
    ensures
        r.key@ == key@,
        r.value == value,
{
    JsonField { key: owned(key), value }
}

/// A text in a request.
pub fn words(s: &str) -> (r: Json)
    ensures
        says(r, Param::Text(s@)),
{
    Json::Str(owned(s))
}

/// What an id is sent as: the service wants a number where the id is one.
pub open spec fn id_param(id: Seq<char>) -> Param {
    match text::unsigned_of(id, u64::MAX as nat) {
        Some(n) => Param::Num(n as u64),
        None => Param::Text(id),
    }
}

/// An id in a request.
pub fn parse_id(id: &str) -> (r: Json)
    ensures
        says(r, id_param(id@)),
{
    match parse_unsigned(id, u64::MAX) {
        Some(n) => Json::UInt(n),
        None => Json::Str(owned(id)),
    }
}

/// An id or a count reads the same whether it comes as a number or as the text of
/// that number, and an id that is a number is sent as one.
pub proof fn numbers_and_their_texts_agree(n: u64, s: String)
    requires
        s@ == text::decimal_of(n as nat),
    ensures
        id_text(Some(Json::UInt(n))) == id_text(Some(Json::Str(s))),
        loose_count(Some(Json::UInt(n))) == Some(n),
        loose_count(Some(Json::Str(s))) == Some(n),
        id_param(s@) == Param::Num(n),
{
    text::decimal_reads_back(n as nat, u64::MAX as nat);
}

/// Of two fields with the same key the first one counts, and a field with another
/// key does not come into it.
pub proof fn the_first_field_counts(first: JsonField, rest: Seq<JsonField>, key: Seq<char>)
    ensures
        first.key@ == key ==> field_of(seq![first] + rest, key) == Some(first.value),
        first.key@ != key ==> field_of(seq![first] + rest, key) == field_of(rest, key),
        field_of(Seq::empty(), key) is None,
{
    assert((seq![first] + rest).skip(1) =~= rest);
}

/// Of two values the first one is taken where it is there, and the second
/// otherwise.
pub proof fn the_first_value_is_taken(a: Option<Json>, b: Option<Json>)
    ensures
        a is Some ==> either(a, b) == a,
        a is None ==> either(a, b) == b,
{
}

/// Things are read in the order of the list, one for each entry that can be read.
pub proof fn entries_are_read_in_order<R: JsonReader>(s: Seq<Json>, items: Seq<R::Item>, last: Json)
    requires
        read_from::<R>(s, items),
    ensures
        items.len() <= s.len(),
        !R::readable(last) ==> read_from::<R>(s.push(last), items),
        forall|item: R::Item|
            R::readable(last) && R::says(last, item) ==> #[trigger] read_from::<R>(
                s.push(last),
                items.push(item),
            ),
{
    reveal(Seq::filter);
    let test = can_read::<R>();
    crate::seqs::what_passes_is_left(s, test);
    assert(s.push(last).drop_last() =~= s);
    let kept = s.filter(test);
    assert forall|item: R::Item| R::readable(last) && R::says(last, item) implies #[trigger] read_from::<
        R,
    >(s.push(last), items.push(item)) by {
        assert(s.push(last).filter(test) == kept.push(last));
    }
}

} // verus!
