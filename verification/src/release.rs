//! Newer versions of the program: which one is newer, and where to get it.

use vstd::prelude::*;

use crate::api::json;
use crate::api::json::Json;
use crate::models;
use crate::text;
use crate::text::{chars_of, parse_unsigned, remove_char, same_text, split_once};

verus! {

/// The numbers between the dots of a version; what is no number is passed over.
pub open spec fn numbers_of(s: Seq<char>) -> Seq<u32>
    decreases s.len(),
{
    match text::split_at(s, '.') {
        Some((first, rest)) => if rest.len() < s.len() {
            number_of(first) + numbers_of(rest)
        } else {
            Seq::empty()
        },
        None => number_of(s),
    }
}

/// The number that a part of a version is, if it is one.
pub open spec fn number_of(part: Seq<char>) -> Seq<u32> {
    match text::unsigned_of(part, u32::MAX as nat) {
        Some(n) => seq![n as u32],
        None => Seq::empty(),
    }
}

/// The number at a place of a version; zero where it has fewer.
pub open spec fn number_at(numbers: Seq<u32>, i: int) -> u32 {
    if 0 <= i < numbers.len() {
        numbers[i]
    } else {
        0
    }
}

/// One version comes after another: by the first number in which they differ, of
/// the first three.
pub open spec fn newer(a: Seq<u32>, b: Seq<u32>) -> bool {
    if number_at(a, 0) != number_at(b, 0) {
        number_at(a, 0) > number_at(b, 0)
    } else if number_at(a, 1) != number_at(b, 1) {
        number_at(a, 1) > number_at(b, 1)
    } else {
        number_at(a, 2) > number_at(b, 2)
    }
}

fn push_number(numbers: &mut Vec<u32>, part: &str)
    ensures
        final(numbers)@ == old(numbers)@ + number_of(part@),
{
    match parse_unsigned(part, u32::MAX as u64) {
        Some(n) => {
            numbers.push(n as u32);
            proof {
                assert(numbers@ =~= old(numbers)@ + seq![n as u32]);
            }
        },
        None => {
            proof {
                assert(numbers@ =~= old(numbers)@ + Seq::<u32>::empty());
            }
        },
    }
}

fn push_numbers(numbers: &mut Vec<u32>, s: &str)
    ensures
        final(numbers)@ == old(numbers)@ + numbers_of(s@),
    decreases s@.len(),
{
    match split_once(s, '.') {
        Some((first, rest)) => {
            push_number(numbers, &first);
            push_numbers(numbers, &rest);
            proof {
                assert(numbers@ =~= old(numbers)@ + (number_of(first@) + numbers_of(rest@)));
            }
        },
        None => push_number(numbers, s),
    }
}

fn version_numbers(s: &str) -> (r: Vec<u32>)
    ensures
        r@ == numbers_of(s@),
{
    let mut numbers: Vec<u32> = Vec::new();
    push_numbers(&mut numbers, s);
    proof {
        assert(numbers@ =~= numbers_of(s@));
    }
    numbers
}

fn number(numbers: &Vec<u32>, i: usize) -> (r: u32)
    ensures
        r == number_at(numbers@, i as int),
{
    if i < numbers.len() {
        numbers[i]
    } else {
        0
    }
}

/// Whether the version `remote` comes after `current`.
pub fn version_is_newer(remote: &str, current: &str) -> (r: bool)
    ensures
        r == newer(numbers_of(remote@), numbers_of(current@)),
{
    let a: Vec<u32> = version_numbers(remote);
    let b: Vec<u32> = version_numbers(current);
    if number(&a, 0) != number(&b, 0) {
        number(&a, 0) > number(&b, 0)
    } else if number(&a, 1) != number(&b, 1) {
        number(&a, 1) > number(&b, 1)
    } else {
        number(&a, 2) > number(&b, 2)
    }
}

/// No version is newer than itself, of two versions at most one is newer than the
/// other, and newer than newer is newer.
pub proof fn versions_are_ordered(a: Seq<u32>, b: Seq<u32>, c: Seq<u32>)
    ensures
        !newer(a, a),
        newer(a, b) ==> !newer(b, a),
        newer(a, b) && newer(b, c) ==> newer(a, c),
{
}

/// Name of the file of a release for a platform; none for one without a build.
pub open spec fn asset_of(os: Seq<char>, arch: Seq<char>) -> Option<Seq<char>> {
    if os == "linux"@ && arch == "x86_64"@ {
        Some("deezer-tui-linux-x86_64"@)
    } else if os == "linux"@ && arch == "aarch64"@ {
        Some("deezer-tui-linux-aarch64"@)
    } else if os == "macos"@ {
        Some("deezer-tui-macos-universal"@)
    } else {
        None
    }
}

/// Name of the file of a release for a platform.
pub fn asset_name(os: &str, arch: &str) -> (r: Option<&'static str>)
    ensures
        match r {
            Some(name) => asset_of(os@, arch@) == Some(name@),
            None => asset_of(os@, arch@) is None,
        },
{
    if same_text(os, "linux") && same_text(arch, "x86_64") {
        Some("deezer-tui-linux-x86_64")
    } else if same_text(os, "linux") && same_text(arch, "aarch64") {
        Some("deezer-tui-linux-aarch64")
    } else if same_text(os, "macos") {
        Some("deezer-tui-macos-universal")
    } else {
        None
    }
}

/// A release's tag without the letter in front.
pub open spec fn untagged(tag: Seq<char>) -> Seq<char> {
    if tag.len() > 0 && tag[0] == 'v' {
        tag.skip(1)
    } else {
        tag
    }
}

fn strip_tag(tag: &str) -> (r: String)
    ensures
        r@ == untagged(tag@),
{
    let chars: Vec<char> = chars_of(tag);
    if chars.len() > 0 && chars[0] == 'v' {
        let rest: String = remove_char(tag, 0);
        proof {
            assert(tag@.remove(0) =~= tag@.skip(1));
        }
        rest
    } else {
        text::owned(tag)
    }
}

/// Where to get the file of this name: from the first of that name.
pub open spec fn download_of(assets: Seq<Json>, name: Seq<char>) -> Option<Seq<char>>
    decreases assets.len(),
{
    if assets.len() == 0 {
        None
    } else if json::as_text(json::at(assets[0], "name"@)) == Some(name) {
        json::as_text(json::at(assets[0], "browser_download_url"@))
    } else {
        download_of(assets.skip(1), name)
    }
}

fn find_download(assets: &Vec<Json>, name: &str) -> (r: Option<String>)
    ensures
        models::opt_text(r) == download_of(assets@, name@),
{
    let mut i: usize = 0;
    proof {
        assert(assets@.skip(0) =~= assets@);
    }
    while i < assets.len()
        invariant
            i <= assets@.len(),
            download_of(assets@.skip(i as int), name@) == download_of(assets@, name@),
        decreases assets@.len() - i,
    {
        proof {
            assert(assets@.skip(i as int)[0] == assets@[i as int]);
            assert(assets@.skip(i as int).skip(1) =~= assets@.skip(i + 1));
        }
        let found: bool = match json::text_of_value(assets[i].get("name")) {
            Some(n) => same_text(&n, name),
            None => false,
        };
        if found {
            return json::text_of_value(assets[i].get("browser_download_url"));
        }
        i = i + 1;
    }
    None
}

/// The update that a release offers: its version and where to get it. None where
/// it is not newer, or has nothing for the platform.
pub open spec fn offered(
    release: Json,
    current: Seq<char>,
    os: Seq<char>,
    arch: Seq<char>,
) -> Option<(Seq<char>, Seq<char>)> {
    match (
        json::as_text(json::at(release, "tag_name"@)),
        asset_of(os, arch),
        json::as_list(json::at(release, "assets"@)),
    ) {
        (Some(tag), Some(name), Some(assets)) => if newer(
            numbers_of(untagged(tag)),
            numbers_of(current),
        ) {
            match download_of(assets, name) {
                Some(url) => Some((untagged(tag), url)),
                None => None,
            }
        } else {
            None
        },
        _ => None,
    }
}

/// Looks at a release for an update.
pub fn update_offer(release: &Json, current: &str, os: &str, arch: &str) -> (r: Option<
    (String, String),
>)
    ensures
        match r {
            Some((version, url)) => offered(*release, current@, os@, arch@) == Some(
                (version@, url@),
            ),
            None => offered(*release, current@, os@, arch@) is None,
        },
{
    let tag: String = match json::text_of_value(release.get("tag_name")) {
        Some(tag) => tag,
        None => {
            return None;
        },
    };
    let version: String = strip_tag(&tag);
    if !version_is_newer(&version, current) {
        return None;
    }
    match asset_name(os, arch) {
        Some(name) => match json::list_of(release.get("assets")) {
            Some(assets) => match find_download(assets, name) {
                Some(url) => Some((version, url)),
                None => None,
            },
            None => None,
        },
        None => None,
    }
}

/// A version with a larger number in front is newer; with the same one, the number
/// behind it decides, and then the third.
pub proof fn larger_numbers_are_newer(a: Seq<u32>, b: Seq<u32>)
    requires
        a.len() >= 3,
        b.len() >= 3,
    ensures
        a[0] > b[0] ==> newer(a, b),
        a[0] == b[0] && a[1] > b[1] ==> newer(a, b),
        a[0] == b[0] && a[1] == b[1] ==> newer(a, b) == (a[2] > b[2]),
        a[0] < b[0] ==> !newer(a, b),
{
}

/// A version with fewer numbers counts as if it had zeros behind them.
pub proof fn missing_numbers_are_zeros(a: Seq<u32>, b: Seq<u32>)
    requires
        a.len() < 3,
    ensures
        newer(a, b) == newer(a.push(0), b),
        newer(b, a) == newer(b, a.push(0)),
{
    assert forall|i: int| number_at(a.push(0), i) == #[trigger] number_at(a, i) by {}
    assert(number_at(a.push(0), 0) == number_at(a, 0));
    assert(number_at(a.push(0), 1) == number_at(a, 1));
    assert(number_at(a.push(0), 2) == number_at(a, 2));
}

/// What is offered is newer than what is in use, is the release's version without
/// its letter, and is fetched from a file of the release that is made for the
/// platform.
pub proof fn offers_are_newer_and_fit(
    release: Json,
    current: Seq<char>,
    os: Seq<char>,
    arch: Seq<char>,
)
    ensures
        offered(release, current, os, arch) matches Some((version, url)) ==> {
            &&& newer(numbers_of(version), numbers_of(current))
            &&& json::as_text(json::at(release, "tag_name"@)) is Some
            &&& {
                let tag = json::as_text(json::at(release, "tag_name"@))->0;
                tag == version || tag == seq!['v'] + version
            }
            &&& os == "linux"@ || os == "macos"@
            &&& json::as_list(json::at(release, "assets"@)) is Some
            &&& offers_file(
                json::as_list(json::at(release, "assets"@))->0,
                if os == "macos"@ {
                    "deezer-tui-macos-universal"@
                } else if arch == "x86_64"@ {
                    "deezer-tui-linux-x86_64"@
                } else {
                    "deezer-tui-linux-aarch64"@
                },
                url,
            )
        },
{
    reveal_strlit("linux");
    reveal_strlit("macos");
    assert("linux"@[0] != "macos"@[0]);
    match (
        json::as_text(json::at(release, "tag_name"@)),
        asset_of(os, arch),
        json::as_list(json::at(release, "assets"@)),
    ) {
        (Some(tag), Some(name), Some(assets)) => {
            if tag.len() > 0 && tag[0] == 'v' {
                assert(seq!['v'] + tag.skip(1) =~= tag);
            }
            downloads_are_of_the_name(assets, name);
        },
        _ => {},
    }
}

/// A file of this name is listed, to be had here.
pub open spec fn offers_file(assets: Seq<Json>, name: Seq<char>, url: Seq<char>) -> bool {
    exists|i: int|
        0 <= i < assets.len() && json::as_text(json::at(#[trigger] assets[i], "name"@)) == Some(
            name,
        ) && json::as_text(json::at(assets[i], "browser_download_url"@)) == Some(url)
}

/// What is found by a name is a file of that name.
proof fn downloads_are_of_the_name(assets: Seq<Json>, name: Seq<char>)
    ensures
        download_of(assets, name) matches Some(url) ==> offers_file(assets, name, url),
    decreases assets.len(),
{
    if assets.len() > 0 && json::as_text(json::at(assets[0], "name"@)) != Some(name) {
        let rest = assets.skip(1);
        downloads_are_of_the_name(rest, name);
        match download_of(rest, name) {
            Some(url) => {
                let i = choose|i: int|
                    0 <= i < rest.len() && json::as_text(json::at(#[trigger] rest[i], "name"@))
                        == Some(name) && json::as_text(
                        json::at(rest[i], "browser_download_url"@),
                    ) == Some(url);
                assert(assets[i + 1] == rest[i]);
            },
            None => {},
        }
    } else if assets.len() > 0 {
        assert(assets[0] == assets[0]);
    }
}

} // verus!
