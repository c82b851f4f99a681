//! The GraphQL interface: its token, its answers, and the moods that it offers.

use vstd::prelude::*;

use crate::api;
use crate::api::json;
use crate::api::json::{list_of, read_optional, text_of_value, text_or_empty, Json, JsonReader};
use crate::api::{api_error, DeezerError};
use crate::models::MoodItem;
use crate::text;
use crate::text::{
    ascii_lower, chars_of, contains, decimal, joined, owned, push_char, push_text,
};

verus! {

// ── The token ───────────────────────────────────────────────────────

/// A message tells of a token that a fresh one can replace.
pub open spec fn blames_token(msg: Seq<char>) -> bool {
    let low = text::ascii_lower_of(msg);
    text::occurs(low, "jwt"@) && (text::occurs(low, "expired"@) || text::occurs(
        low,
        "reauthenticate"@,
    ) || text::occurs(low, "re-authenticate"@) || text::occurs(low, "invalid"@) || text::occurs(
        low,
        "not valid"@,
    ))
}

/// An error that a fresh token can resolve. The service reports an expired token
/// as a message rather than a status, so the message decides; other failures are
/// none of these.
pub open spec fn stale_jwt(err: DeezerError) -> bool {
    match err {
        DeezerError::Auth(msg) => text::occurs(text::ascii_lower_of(msg@), "jwt"@),
        DeezerError::Api(msg) => blames_token(msg@),
        _ => false,
    }
}

/// Whether a fresh token can resolve an error.
pub fn is_stale_jwt(err: &DeezerError) -> (r: bool)
    ensures
        r == stale_jwt(*err),
{
    match err {
        DeezerError::Auth(msg) => {
            let low: String = ascii_lower(msg);
            contains(&low, "jwt")
        },
        DeezerError::Api(msg) => {
            let low: String = ascii_lower(msg);
            contains(&low, "jwt") && (contains(&low, "expired") || contains(
                &low,
                "reauthenticate",
            ) || contains(&low, "re-authenticate") || contains(&low, "invalid") || contains(
                &low,
                "not valid",
            ))
        },
        _ => false,
    }
}

/// Whether a call that failed is tried again: once, with a fresh token, where a
/// stale one is to blame.
pub fn retries_with_fresh_token(err: &DeezerError, retried: bool) -> (r: bool)
    ensures
        r == (!retried && stale_jwt(*err)),
{
    !retried && is_stale_jwt(err)
}

/// The token that an answer brings. `status` is the answer's status.
pub fn jwt_in(body: &Json, status: &str) -> (r: Result<String, DeezerError>)
    ensures
        match r {
            Ok(jwt) => json::as_text(json::at(*body, "jwt"@)) == Some(jwt@),
            Err(e) => json::as_text(json::at(*body, "jwt"@)) is None && api::is_auth(
                e,
                "Missing 'jwt' in auth response (status="@ + status@ + ")"@,
            ),
        },
{
    match text_of_value(body.get("jwt")) {
        Some(jwt) => Ok(jwt),
        None => {
            let mut msg: String = joined("Missing 'jwt' in auth response (status=", status);
            push_text(&mut msg, ")");
            Err(DeezerError::Auth(msg))
        },
    }
}

// ── Answers ─────────────────────────────────────────────────────────

/// A rejected token can come back as a bare status without a message.
pub open spec fn rejects_token(code: u16) -> bool {
    code == 401 || code == 403
}

/// The error for a status that rejects the token. `status` is the status in words.
pub fn rejected_status(code: u16, status: &str) -> (r: Option<DeezerError>)
    ensures
        match r {
            Some(e) => rejects_token(code) && api::is_auth(
                e,
                "GraphQL rejected the JWT (status="@ + status@ + ")"@,
            ),
            None => !rejects_token(code),
        },
{
    if code == 401 || code == 403 {
        let mut msg: String = joined("GraphQL rejected the JWT (status=", status);
        push_text(&mut msg, ")");
        Some(DeezerError::Auth(msg))
    } else {
        None
    }
}

/// A rejected status leads to one more try with a fresh token.
pub proof fn a_rejected_status_is_stale(status: Seq<char>, e: DeezerError)
    requires
        api::is_auth(e, "GraphQL rejected the JWT (status="@ + status + ")"@),
    ensures
        stale_jwt(e),
{
    reveal_strlit("GraphQL rejected the JWT (status=");
    reveal_strlit("jwt");
    let msg = "GraphQL rejected the JWT (status="@ + status + ")"@;
    let low = text::ascii_lower_of(msg);
    assert("GraphQL rejected the JWT (status="@.len() == 33);
    assert("jwt"@.len() == 3);
    assert(msg[21] == 'J' && msg[22] == 'W' && msg[23] == 'T');
    assert(low[21] == 'j' && low[22] == 'w' && low[23] == 't');
    assert(low.subrange(21, 24) =~= "jwt"@);
    assert(text::occurs_at(low, "jwt"@, 21));
}

/// Reads the message of an error.
pub struct ErrorMessage;

impl JsonReader for ErrorMessage {
    type Item = String;

    open spec fn readable(j: Json) -> bool {
        json::as_text(json::at(j, "message"@)) is Some
    }

    open spec fn says(j: Json, item: String) -> bool {
        json::as_text(json::at(j, "message"@)) == Some(item@)
    }

    fn read(j: &Json) -> (r: Option<String>) {
        text_of_value(j.get("message"))
    }
}

/// Texts, one after the other, with a separator between two.
pub open spec fn with_between(s: Seq<String>, sep: Seq<char>) -> Seq<char>
    decreases s.len(),
{
    if s.len() == 0 {
        Seq::empty()
    } else if s.len() == 1 {
        s[0]@
    } else {
        with_between(s.drop_last(), sep) + sep + s.last()@
    }
}

/// Texts, one after the other, with a separator between two.
fn join_texts(s: &Vec<String>, sep: &str) -> (r: String)
    ensures
        r@ == with_between(s@, sep@),
{
    let n: usize = s.len();
    let mut out: String = String::new();
    let mut i: usize = 0;
    proof {
        assert(s@.take(0) =~= Seq::empty());
    }
    while i < n
        invariant
            i <= n,
            n == s@.len(),
            out@ == with_between(s@.take(i as int), sep@),
        decreases n - i,
    {
        proof {
            assert(s@.take(i + 1).drop_last() =~= s@.take(i as int));
            assert(s@.take(i + 1).last() == s@[i as int]);
        }
        if i > 0 {
            push_text(&mut out, sep);
        } else {
            proof {
                assert(out@ + s@[i as int]@ =~= s@[i as int]@);
            }
        }
        push_text(&mut out, &s[i]);
        i = i + 1;
    }
    proof {
        assert(s@.take(n as int) =~= s@);
    }
    out
}

/// The errors that an answer reports.
pub open spec fn errors_in(body: Json) -> Seq<Json> {
    json::list_or_empty(json::at(body, "errors"@))
}

/// What an answer brings, or the messages of the errors that it reports.
pub fn graphql_data<'a>(body: &'a Json) -> (r: Result<&'a Json, DeezerError>)
    ensures
        match r {
            Ok(v) => errors_in(*body).len() == 0 && json::at(*body, "data"@) == Some(*v),
            Err(e) => if errors_in(*body).len() > 0 {
                exists|messages: Seq<String>| #[trigger]
                    json::read_from::<ErrorMessage>(errors_in(*body), messages) && api::is_api(
                        e,
                        "GraphQL error: "@ + with_between(messages, "; "@),
                    )
            } else {
                json::at(*body, "data"@) is None && api::is_api(
                    e,
                    "Missing 'data' in GraphQL response"@,
                )
            },
        },
{
    match list_of(body.get("errors")) {
        Some(errors) => {
            if errors.len() > 0 {
                let messages: Vec<String> = read_optional::<ErrorMessage>(body.get("errors"));
                let words: String = join_texts(&messages, "; ");
                let msg: String = joined("GraphQL error: ", &words);
                assert(json::read_from::<ErrorMessage>(errors_in(*body), messages@));
                return Err(DeezerError::Api(msg));
            }
        },
        None => {},
    }
    match body.get("data") {
        Some(v) => Ok(v),
        None => Err(api_error("Missing 'data' in GraphQL response")),
    }
}

// ── Moods ───────────────────────────────────────────────────────────

/// Reads a mood that has an id and a title.
pub struct OfferedMood;

impl JsonReader for OfferedMood {
    type Item = MoodItem;

    open spec fn readable(j: Json) -> bool {
        &&& json::text_or(json::at2(j, "node"@, "id"@), Seq::empty()).len() > 0
        &&& json::text_or(json::at2(j, "node"@, "title"@), Seq::empty()).len() > 0
    }

    open spec fn says(j: Json, item: MoodItem) -> bool {
        &&& item.id@ == json::text_or(json::at2(j, "node"@, "id"@), Seq::empty())
        &&& item.title@ == json::text_or(json::at2(j, "node"@, "title"@), Seq::empty())
        &&& item.target@.len() == 0
        &&& item.radio_id is None
    }

    fn read(j: &Json) -> (r: Option<MoodItem>) {
        let id: String = text_or_empty(j.get2("node", "id"));
        let title: String = text_or_empty(j.get2("node", "title"));
        if !id.as_str().is_empty() && !title.as_str().is_empty() {
            Some(MoodItem { id, title, target: String::new(), radio_id: None })
        } else {
            None
        }
    }
}

/// The stations that stand in for moods: their titles and ids.
pub open spec fn mood_stations() -> Seq<(Seq<char>, u64)> {
    seq![
        ("Chill"@, 132u64),
        ("Workout"@, 75u64),
        ("Pop"@, 137u64),
        ("Rock"@, 152u64),
        ("Electro"@, 144u64),
        ("Hip Hop"@, 116u64),
        ("Latin"@, 84u64),
        ("R&B"@, 153u64),
        ("Reggae"@, 117u64),
        ("Indie"@, 113u64),
    ]
}

/// A mood is that of a station.
pub open spec fn is_station_mood(m: MoodItem, station: (Seq<char>, u64)) -> bool {
    &&& m.id@ == text::decimal_of(station.1 as nat)
    &&& m.title@ == station.0
    &&& m.target@.len() == 0
    &&& m.radio_id == Some(station.1)
}

/// The moods are those of the stations.
pub open spec fn are_station_moods(s: Seq<MoodItem>) -> bool {
    &&& s.len() == mood_stations().len()
    &&& forall|i: int| 0 <= i < s.len() ==> is_station_mood(#[trigger] s[i], mood_stations()[i])
}

/// The mood of a station.
fn station_mood(title: &str, station: u64) -> (r: MoodItem)
    ensures
        is_station_mood(r, (title@, station)),
{
    MoodItem {
        id: decimal(station),
        title: owned(title),
        target: String::new(),
        radio_id: Some(station),
    }
}

/// The moods to offer when the service has none: stations whose music fits.
pub fn hardcoded_moods() -> (r: Vec<MoodItem>)
    ensures
        are_station_moods(r@),
{
    let mut out: Vec<MoodItem> = Vec::new();
    out.push(station_mood("Chill", 132));
    out.push(station_mood("Workout", 75));
    out.push(station_mood("Pop", 137));
    out.push(station_mood("Rock", 152));
    out.push(station_mood("Electro", 144));
    out.push(station_mood("Hip Hop", 116));
    out.push(station_mood("Latin", 84));
    out.push(station_mood("R&B", 153));
    out.push(station_mood("Reggae", 117));
    out.push(station_mood("Indie", 113));
    out
}

/// The list of moods in an answer.
pub open spec fn mood_edges(data: Option<Json>) -> Seq<Json> {
    match data {
        Some(d) => match json::at3(d, "me"@, "flowConfigs"@, "moods"@) {
            Some(moods) => json::list_or_empty(json::at(moods, "edges"@)),
            None => Seq::empty(),
        },
        None => Seq::empty(),
    }
}

/// The moods to offer: those of the answer, or the stations where the call failed
/// or brought none.
pub fn moods_of(data: Option<&Json>) -> (r: Vec<MoodItem>)
    ensures
        if exists|i: int|
            0 <= i < mood_edges(json::pointed(data)).len() && OfferedMood::readable(
                #[trigger] mood_edges(json::pointed(data))[i],
            ) {
            json::read_from::<OfferedMood>(mood_edges(json::pointed(data)), r@)
        } else {
            are_station_moods(r@)
        },
{
    broadcast use vstd::seq_lib::group_filter_ensures;

    let ghost edges = mood_edges(json::pointed(data));
    let moods: Vec<MoodItem> = match data {
        Some(d) => match d.get3("me", "flowConfigs", "moods") {
            Some(m) => read_optional::<OfferedMood>(m.get("edges")),
            None => read_optional::<OfferedMood>(None),
        },
        None => read_optional::<OfferedMood>(None),
    };
    proof {
        let kept = edges.filter(json::can_read::<OfferedMood>());
        if exists|i: int| 0 <= i < edges.len() && OfferedMood::readable(#[trigger] edges[i]) {
            let i = choose|i: int| 0 <= i < edges.len() && OfferedMood::readable(#[trigger] edges[i]);
            assert(edges.contains(edges[i]));
            assert(kept.contains(edges[i]));
        } else if kept.len() > 0 {
            edges.lemma_filter_contains_rev(json::can_read::<OfferedMood>(), kept[0]);
            let i = choose|i: int| 0 <= i < edges.len() && edges[i] == kept[0];
            assert(OfferedMood::readable(edges[i]));
        }
    }
    if moods.len() == 0 {
        hardcoded_moods()
    } else {
        moods
    }
}

/// Where the tracks of a mood come from.
#[derive(Debug)]
pub enum MoodSource {
    /// A station.
    Radio(u64),
    /// A query of the GraphQL interface.
    Query(String),
    /// Nowhere.
    Missing(DeezerError),
}

/// A text as it is written inside quotation marks.
pub open spec fn quoted_of(s: Seq<char>) -> Seq<char>
    decreases s.len(),
{
    if s.len() == 0 {
        Seq::empty()
    } else {
        let rest = quoted_of(s.drop_last());
        if s.last() == '\\' || s.last() == '"' {
            rest.push('\\').push(s.last())
        } else {
            rest.push(s.last())
        }
    }
}

/// A text as it is written inside quotation marks.
pub fn quoted(s: &str) -> (r: String)
    ensures
        r@ == quoted_of(s@),
{
    let chars: Vec<char> = chars_of(s);
    let n: usize = chars.len();
    let mut out: String = String::new();
    let mut i: usize = 0;
    proof {
        assert(chars@.take(0) =~= Seq::empty());
    }
    while i < n
        invariant
            i <= n,
            n == chars@.len(),
            out@ == quoted_of(chars@.take(i as int)),
        decreases n - i,
    {
        proof {
            assert(chars@.take(i + 1).drop_last() =~= chars@.take(i as int));
            assert(chars@.take(i + 1).last() == chars@[i as int]);
        }
        let c: char = chars[i];
        if c == '\\' || c == '"' {
            push_char(&mut out, '\\');
        }
        push_char(&mut out, c);
        i = i + 1;
    }
    proof {
        assert(chars@.take(n as int) =~= chars@);
    }
    out
}

/// The query for the tracks of a mood.
pub open spec fn mood_query_of(id: Seq<char>) -> Seq<char> {
    "{ flowConfig(flowConfigId: \""@ + quoted_of(id) + "\") { tracks { track { id } } } }"@
}

/// Where the tracks of a mood come from.
pub fn mood_source(mood: &MoodItem) -> (r: MoodSource)
    ensures
        match mood.radio_id {
            Some(station) => r == MoodSource::Radio(station),
            None => if mood.id@.len() == 0 {
                r matches MoodSource::Missing(e) && api::is_api(e, "Mood has no id"@)
            } else {
                r matches MoodSource::Query(q) && q@ == mood_query_of(mood.id@)
            },
        },
{
    match mood.radio_id {
        Some(station) => MoodSource::Radio(station),
        None => {
            if mood.id.as_str().is_empty() {
                MoodSource::Missing(api_error("Mood has no id"))
            } else {
                let id: String = quoted(&mood.id);
                let mut query: String = joined("{ flowConfig(flowConfigId: \"", &id);
                push_text(&mut query, "\") { tracks { track { id } } } }");
                MoodSource::Query(query)
            }
        },
    }
}

/// Reads the id of a mood's track.
pub struct MoodTrack;

impl JsonReader for MoodTrack {
    type Item = String;

    open spec fn readable(j: Json) -> bool {
        json::as_text(json::at2(j, "track"@, "id"@)) is Some
    }

    open spec fn says(j: Json, item: String) -> bool {
        json::as_text(json::at2(j, "track"@, "id"@)) == Some(item@)
    }

    fn read(j: &Json) -> (r: Option<String>) {
        text_of_value(j.get2("track", "id"))
    }
}

/// The ids of a mood's tracks. A mood without tracks is an error.
pub fn mood_track_ids(data: &Json) -> (r: Result<Vec<String>, DeezerError>)
    ensures
        match r {
            Ok(ids) => ids@.len() > 0 && json::read_from::<MoodTrack>(
                json::list_or_empty(json::at2(*data, "flowConfig"@, "tracks"@)),
                ids@,
            ),
            Err(e) => json::read_from::<MoodTrack>(
                json::list_or_empty(json::at2(*data, "flowConfig"@, "tracks"@)),
                Seq::empty(),
            ) && api::is_api(e, "No tracks in mood Flow config"@),
        },
{
    let ids: Vec<String> = read_optional::<MoodTrack>(data.get2("flowConfig", "tracks"));
    if ids.len() == 0 {
        assert(ids@ =~= Seq::empty());
        Err(api_error("No tracks in mood Flow config"))
    } else {
        Ok(ids)
    }
}

/// A text inside quotation marks does not end them early: every quotation mark in it
/// stands behind a backslash. Two texts that are quoted the same are the same.
pub proof fn quoting_keeps_texts_apart(s: Seq<char>, t: Seq<char>)
    ensures
        forall|i: int|
            0 <= i < quoted_of(s).len() && (#[trigger] quoted_of(s)[i]) == '"' ==> i > 0
                && quoted_of(s)[i - 1] == '\\',
        quoted_of(s) == quoted_of(t) ==> s == t,
        quoted_of(s).len() >= s.len(),
    decreases s.len(),
{
    if s.len() > 0 {
        let c = s.last();
        let rest = quoted_of(s.drop_last());
        quoting_keeps_texts_apart(
            s.drop_last(),
            if t.len() > 0 {
                t.drop_last()
            } else {
                t
            },
        );
        assert(quoted_of(s).last() == c);
        if t.len() > 0 && quoted_of(s) == quoted_of(t) {
            let other = quoted_of(t.drop_last());
            assert(quoted_of(t).last() == t.last());
            if c == '\\' || c == '"' {
                assert(quoted_of(s).drop_last().drop_last() =~= rest);
                assert(quoted_of(t).drop_last().drop_last() =~= other);
            } else {
                assert(quoted_of(s).drop_last() =~= rest);
                assert(quoted_of(t).drop_last() =~= other);
            }
            assert(s =~= s.drop_last().push(c));
            assert(t =~= t.drop_last().push(c));
        }
    } else if t.len() > 0 {
        assert(quoted_of(t).len() > 0);
    } else {
        assert(s =~= t);
    }
}

/// A message about a token that has expired, or is not valid, leads to a fresh one;
/// a message that speaks of no token does not.
pub proof fn tokens_are_blamed_by_name(msg: String)
    ensures
        ({
            let low = text::ascii_lower_of(msg@);
            &&& text::occurs(low, "jwt"@) && text::occurs(low, "expired"@) ==> stale_jwt(
                DeezerError::Api(msg),
            )
            &&& text::occurs(low, "jwt"@) && text::occurs(low, "invalid"@) ==> stale_jwt(
                DeezerError::Api(msg),
            )
            &&& !text::occurs(low, "jwt"@) ==> !stale_jwt(DeezerError::Api(msg)) && !stale_jwt(
                DeezerError::Auth(msg),
            )
            &&& text::occurs(low, "jwt"@) ==> stale_jwt(DeezerError::Auth(msg))
        }),
        forall|code: u16| #[trigger] rejects_token(code) <==> code == 401 || code == 403,
{
}

} // verus!
