//! What is asked of the gateway: the method that is called, and its parameters.

use vstd::prelude::*;

use crate::api::json;
use crate::api::json::{field, parse_id, words, Json, JsonField, Param};

verus! {

/// A call of the gateway.
#[derive(Debug)]
pub struct Request {
    pub method: &'static str,
    pub params: Json,
}

/// A call of a method with these parameters.
pub open spec fn asks(r: Request, method: Seq<char>, params: Seq<(Seq<char>, Param)>) -> bool {
    &&& r.method@ == method
    &&& json::says(r.params, Param::Record(params))
}

/// Parameters that are being put together.
struct Draft {
    fields: Vec<JsonField>,
    shape: Ghost<Seq<(Seq<char>, Param)>>,
}

impl Draft {
    /// The fields say what they are to say.
    spec fn wf(self) -> bool {
        &&& self.fields@.len() == self.shape@.len()
        &&& forall|i: int|
            0 <= i < self.fields@.len() ==> (#[trigger] self.fields@[i]).key@ == self.shape@[i].0
                && json::says(self.fields@[i].value, self.shape@[i].1)
    }

    fn new() -> (r: Draft)
        ensures
            r.wf(),
            r.shape@ == Seq::<(Seq<char>, Param)>::empty(),
    {
        Draft { fields: Vec::new(), shape: Ghost(Seq::empty()) }
    }

    fn with(self, key: &str, value: Json, p: Ghost<Param>) -> (r: Draft)
        requires
            self.wf(),
            json::says(value, p@),
        ensures
            r.wf(),
            r.shape@ == self.shape@.push((key@, p@)),
    {
        let mut fields: Vec<JsonField> = self.fields;
        let ghost before = fields@;
        fields.push(field(key, value));
        let shape: Ghost<Seq<(Seq<char>, Param)>> = Ghost(self.shape@.push((key@, p@)));
        proof {
            assert forall|i: int| 0 <= i < fields@.len() implies (#[trigger] fields@[i]).key@
                == shape@[i].0 && json::says(fields@[i].value, shape@[i].1) by {
                if i < before.len() {
                    assert(fields@[i] == before[i]);
                    assert(before[i].key@ == self.shape@[i].0);
                }
            }
        }
        Draft { fields, shape }
    }

    fn text(self, key: &str, value: &str) -> (r: Draft)
        requires
            self.wf(),
        ensures
            r.wf(),
            r.shape@ == self.shape@.push((key@, Param::Text(value@))),
    {
        self.with(key, words(value), Ghost(Param::Text(value@)))
    }

    fn num(self, key: &str, value: u64) -> (r: Draft)
        requires
            self.wf(),
        ensures
            r.wf(),
            r.shape@ == self.shape@.push((key@, Param::Num(value))),
    {
        self.with(key, Json::UInt(value), Ghost(Param::Num(value)))
    }

    fn flag(self, key: &str, value: bool) -> (r: Draft)
        requires
            self.wf(),
        ensures
            r.wf(),
            r.shape@ == self.shape@.push((key@, Param::Flag(value))),
    {
        self.with(key, Json::Bool(value), Ghost(Param::Flag(value)))
    }

    fn id(self, key: &str, value: &str) -> (r: Draft)
        requires
            self.wf(),
        ensures
            r.wf(),
            r.shape@ == self.shape@.push((key@, json::id_param(value@))),
    {
        self.with(key, parse_id(value), Ghost(json::id_param(value@)))
    }

    fn record(self, key: &str, inner: Draft) -> (r: Draft)
        requires
            self.wf(),
            inner.wf(),
        ensures
            r.wf(),
            r.shape@ == self.shape@.push((key@, Param::Record(inner.shape@))),
    {
        let ghost p = Param::Record(inner.shape@);
        self.with(key, inner.done(), Ghost(p))
    }

    fn done(self) -> (r: Json)
        requires
            self.wf(),
        ensures
            json::says(r, Param::Record(self.shape@)),
    {
        Json::Object(self.fields)
    }
}

/// Up to five fields that are the same one by one are the same.
proof fn same_fields(a: Seq<(Seq<char>, Param)>, b: Seq<(Seq<char>, Param)>)
    requires
        a.len() == b.len() <= 5,
        a.len() > 0 ==> a[0] == b[0],
        a.len() > 1 ==> a[1] == b[1],
        a.len() > 2 ==> a[2] == b[2],
        a.len() > 3 ==> a[3] == b[3],
        a.len() > 4 ==> a[4] == b[4],
    ensures
        a == b,
{
    assert(a =~= b);
}

/// A list of texts.
pub open spec fn text_list(s: Seq<String>) -> Param {
    Param::List(s.map_values(|t: String| Param::Text(t@)))
}

/// Puts texts into a list.
fn texts(s: &Vec<String>) -> (r: Json)
    ensures
        json::says(r, text_list(s@)),
{
    let n: usize = s.len();
    let mut out: Vec<Json> = Vec::new();
    let mut i: usize = 0;
    while i < n
        invariant
            i <= n,
            n == s@.len(),
            out@.len() == i,
            forall|k: int| 0 <= k < i ==> json::says(#[trigger] out@[k], Param::Text(s@[k]@)),
        decreases n - i,
    {
        out.push(words(&s[i]));
        i = i + 1;
    }
    Json::Array(out)
}

/// What a query with these variables sends.
pub open spec fn query_params(query: Seq<char>, variables: Seq<(Seq<char>, Param)>) -> Param {
    Param::Record(
        seq![("query"@, Param::Text(query)), ("variables"@, Param::Record(variables))],
    )
}

/// The body of a query without variables.
pub fn plain_query(query: &str) -> (r: Json)
    ensures
        json::says(r, query_params(query@, Seq::empty())),
{
    let body: Draft = Draft::new().text("query", query).record("variables", Draft::new());
    proof {
        same_fields(
            body.shape@,
            seq![("query"@, Param::Text(query@)), ("variables"@, Param::Record(Seq::empty()))],
        );
    }
    body.done()
}

/// The body of a query for the things of these ids.
pub fn query_by_ids(query: &str, ids: &Vec<String>) -> (r: Json)
    ensures
        json::says(r, query_params(query@, seq![("ids"@, text_list(ids@))])),
{
    let variables: Draft = Draft::new().with("ids", texts(ids), Ghost(text_list(ids@)));
    let ghost wanted = seq![("ids"@, text_list(ids@))];
    proof {
        same_fields(variables.shape@, wanted);
    }
    let body: Draft = Draft::new().text("query", query).record("variables", variables);
    proof {
        same_fields(
            body.shape@,
            seq![("query"@, Param::Text(query@)), ("variables"@, Param::Record(wanted))],
        );
    }
    body.done()
}

/// How a track was played.
pub open spec fn stat_params() -> Seq<(Seq<char>, Param)> {
    seq![("seek"@, Param::Num(0)), ("pause"@, Param::Num(0)), ("sync"@, Param::Num(1))]
}

/// Which track was played.
pub open spec fn media_params(track_id: Seq<char>, format: Seq<char>) -> Seq<(Seq<char>, Param)> {
    seq![
        ("id"@, json::id_param(track_id)),
        ("type"@, Param::Text("song"@)),
        ("format"@, Param::Text(format)),
    ]
}

/// Where a track was played from.
pub open spec fn context_params(ctxt_id: Seq<char>, ctxt_type: Seq<char>) -> Seq<
    (Seq<char>, Param),
> {
    seq![("id"@, json::id_param(ctxt_id)), ("t"@, Param::Text(ctxt_type))]
}

/// What is told of a play.
pub open spec fn listen_params(
    ts_listen: u64,
    track_id: Seq<char>,
    format: Seq<char>,
    ctxt_id: Seq<char>,
    ctxt_type: Seq<char>,
) -> Seq<(Seq<char>, Param)> {
    seq![
        ("ts_listen"@, Param::Num(ts_listen)),
        ("type"@, Param::Num(0)),
        ("stat"@, Param::Record(stat_params())),
        ("media"@, Param::Record(media_params(track_id, format))),
        ("ctxt"@, Param::Record(context_params(ctxt_id, ctxt_type))),
    ]
}

/// Reports that a track was played, so that it shows up in the user's listening
/// history.
pub fn log_listen(
    ts_listen: u64,
    track_id: &str,
    format: &str,
    ctxt_id: &str,
    ctxt_type: &str,
) -> (r: Request)
    ensures
        asks(
            r,
            "log.listen"@,
            seq![
                (
                    "params"@,
                    Param::Record(
                        listen_params(ts_listen, track_id@, format@, ctxt_id@, ctxt_type@),
                    ),
                ),
            ],
        ),
{
    let stat: Draft = Draft::new().num("seek", 0).num("pause", 0).num("sync", 1);
    let media: Draft = Draft::new().id("id", track_id).text("type", "song").text("format", format);
    let ctxt: Draft = Draft::new().id("id", ctxt_id).text("t", ctxt_type);
    proof {
        same_fields(stat.shape@, stat_params());
        same_fields(media.shape@, media_params(track_id@, format@));
        same_fields(ctxt.shape@, context_params(ctxt_id@, ctxt_type@));
    }
    let params: Draft = Draft::new().num("ts_listen", ts_listen).num("type", 0).record(
        "stat",
        stat,
    ).record("media", media).record("ctxt", ctxt);
    proof {
        same_fields(
            params.shape@,
            listen_params(ts_listen, track_id@, format@, ctxt_id@, ctxt_type@),
        );
    }
    Request { method: "log.listen", params: Draft::new().record("params", params).done() }
}

/// Asks for the full data of a track.
pub fn get_track(song_id: &str) -> (r: Request)
    ensures
        asks(r, "song.getData"@, seq![("sng_id"@, Param::Text(song_id@))]),
{
    Request { method: "song.getData", params: Draft::new().text("sng_id", song_id).done() }
}

/// Numbers, as a list in a request.
pub open spec fn number_list(ids: Seq<u64>) -> Param {
    Param::List(ids.map_values(|n: u64| Param::Num(n)))
}

/// Asks for the full data of several tracks.
pub fn get_tracks(ids: &Vec<u64>) -> (r: Request)
    ensures
        asks(r, "song.getListData"@, seq![("sng_ids"@, number_list(ids@))]),
{
    let n: usize = ids.len();
    let mut list: Vec<Json> = Vec::new();
    let mut i: usize = 0;
    while i < n
        invariant
            i <= n,
            n == ids@.len(),
            list@.len() == i,
            forall|k: int| 0 <= k < i ==> #[trigger] list@[k] == Json::UInt(ids@[k]),
        decreases n - i,
    {
        list.push(Json::UInt(ids[i]));
        i = i + 1;
    }
    let value: Json = Json::Array(list);
    proof {
        reveal_with_fuel(json::says, 2);
    }
    let d: Draft = Draft::new().with("sng_ids", value, Ghost(number_list(ids@)));
    Request { method: "song.getListData", params: d.done() }
}

/// Searches for everything that matches.
pub fn search(query: &str) -> (r: Request)
    ensures
        asks(
            r,
            "deezer.pageSearch"@,
            seq![
                ("query"@, Param::Text(query@)),
                ("filter"@, Param::Text("ALL"@)),
                ("output"@, Param::Text("TRACK"@)),
                ("start"@, Param::Num(0)),
                ("nb"@, Param::Num(40)),
            ],
        ),
{
    let d: Draft = Draft::new().text("query", query).text("filter", "ALL").text(
        "output",
        "TRACK",
    ).num("start", 0).num("nb", 40);
    Request { method: "deezer.pageSearch", params: d.done() }
}

/// Asks for the user's favorite tracks.
pub fn get_favorites(user_id: u64) -> (r: Request)
    ensures
        asks(
            r,
            "favorite_song.getList"@,
            seq![
                ("user_id"@, Param::Num(user_id)),
                ("start"@, Param::Num(0)),
                ("nb"@, Param::Num(2000)),
            ],
        ),
{
    let d: Draft = Draft::new().num("user_id", user_id).num("start", 0).num("nb", 2000);
    Request { method: "favorite_song.getList", params: d.done() }
}

/// Asks for one tab of the user's profile.
pub fn profile_tab(user_id: u64, tab: &str, nb: u64) -> (r: Request)
    ensures
        asks(
            r,
            "deezer.pageProfile"@,
            seq![
                ("user_id"@, Param::Num(user_id)),
                ("tab"@, Param::Text(tab@)),
                ("nb"@, Param::Num(nb)),
            ],
        ),
{
    let d: Draft = Draft::new().num("user_id", user_id).text("tab", tab).num("nb", nb);
    Request { method: "deezer.pageProfile", params: d.done() }
}

/// Asks for the tracks that were played last.
pub fn songs_history() -> (r: Request)
    ensures
        asks(r, "user.getSongsHistory"@, seq![("nb"@, Param::Num(200))]),
{
    Request { method: "user.getSongsHistory", params: Draft::new().num("nb", 200).done() }
}

/// Asks for the weekly new releases.
pub fn get_new_releases() -> (r: Request)
    ensures
        asks(
            r,
            "deezer.pageSmartTracklist"@,
            seq![
                ("smarttracklist_id"@, Param::Text("new-releases"@)),
                ("lang"@, Param::Text("en"@)),
            ],
        ),
{
    let d: Draft = Draft::new().text("smarttracklist_id", "new-releases").text("lang", "en");
    Request { method: "deezer.pageSmartTracklist", params: d.done() }
}

/// Asks for the episodes of a podcast.
pub fn get_show_episodes(show_id: &str) -> (r: Request)
    ensures
        asks(
            r,
            "deezer.pageShow"@,
            seq![
                ("show_id"@, Param::Text(show_id@)),
                ("start"@, Param::Num(0)),
                ("nb"@, Param::Num(200)),
                ("user_id"@, Param::Nothing),
            ],
        ),
{
    let d: Draft = Draft::new().text("show_id", show_id).num("start", 0).num("nb", 200).with(
        "user_id",
        Json::Null,
        Ghost(Param::Nothing),
    );
    Request { method: "deezer.pageShow", params: d.done() }
}

/// Makes a track a favorite.
pub fn add_favorite(song_id: &str) -> (r: Request)
    ensures
        asks(r, "favorite_song.add"@, seq![("SNG_ID"@, Param::Text(song_id@))]),
{
    Request { method: "favorite_song.add", params: Draft::new().text("SNG_ID", song_id).done() }
}

/// Makes a track no favorite any more.
pub fn remove_favorite(song_id: &str) -> (r: Request)
    ensures
        asks(r, "favorite_song.remove"@, seq![("SNG_ID"@, Param::Text(song_id@))]),
{
    Request { method: "favorite_song.remove", params: Draft::new().text("SNG_ID", song_id).done() }
}

/// Makes an artist a favorite.
pub fn add_favorite_artist(artist_id: &str) -> (r: Request)
    ensures
        asks(r, "artist.addFavorite"@, seq![("ART_ID"@, json::id_param(artist_id@))]),
{
    Request { method: "artist.addFavorite", params: Draft::new().id("ART_ID", artist_id).done() }
}

/// Makes an artist no favorite any more.
pub fn remove_favorite_artist(artist_id: &str) -> (r: Request)
    ensures
        asks(r, "artist.deleteFavorite"@, seq![("ART_ID"@, json::id_param(artist_id@))]),
{
    Request { method: "artist.deleteFavorite", params: Draft::new().id("ART_ID", artist_id).done() }
}

/// Makes an album a favorite.
pub fn add_favorite_album(album_id: &str) -> (r: Request)
    ensures
        asks(r, "favorite_album.add"@, seq![("ALB_ID"@, json::id_param(album_id@))]),
{
    Request { method: "favorite_album.add", params: Draft::new().id("ALB_ID", album_id).done() }
}

/// Makes an album no favorite any more.
pub fn remove_favorite_album(album_id: &str) -> (r: Request)
    ensures
        asks(r, "favorite_album.remove"@, seq![("ALB_ID"@, json::id_param(album_id@))]),
{
    Request { method: "favorite_album.remove", params: Draft::new().id("ALB_ID", album_id).done() }
}

/// A track in the list of a playlist request.
pub open spec fn song_param(id: String) -> Param {
    Param::List(seq![Param::Text(id@), Param::Num(0)])
}

/// Tracks, as a playlist request lists them.
pub open spec fn song_list(ids: Seq<String>) -> Param {
    Param::List(ids.map_values(|id: String| song_param(id)))
}

/// A track in the list of a playlist request.
fn song(id: &String) -> (r: Json)
    ensures
        json::says(r, song_param(*id)),
{
    let mut pair: Vec<Json> = Vec::new();
    pair.push(words(id));
    pair.push(Json::UInt(0));
    proof {
        let l = seq![Param::Text(id@), Param::Num(0)];
        assert(json::says(pair@[0], l[0]));
        assert(json::says(pair@[1], l[1]));
        assert forall|i: int| 0 <= i < l.len() implies json::says(#[trigger] pair@[i], l[i]) by {
            assert(i == 0 || i == 1);
        }
    }
    Json::Array(pair)
}

/// Tracks, as a playlist request lists them.
fn songs(ids: &Vec<String>) -> (r: Json)
    ensures
        json::says(r, song_list(ids@)),
{
    let n: usize = ids.len();
    let mut list: Vec<Json> = Vec::new();
    let mut i: usize = 0;
    while i < n
        invariant
            i <= n,
            n == ids@.len(),
            list@.len() == i,
            forall|k: int| 0 <= k < i ==> json::says(#[trigger] list@[k], song_param(ids@[k])),
        decreases n - i,
    {
        list.push(song(&ids[i]));
        i = i + 1;
    }
    Json::Array(list)
}

/// Adds tracks to a playlist.
pub fn add_to_playlist(playlist_id: &str, song_ids: &Vec<String>) -> (r: Request)
    ensures
        asks(
            r,
            "playlist.addSongs"@,
            seq![("playlist_id"@, Param::Text(playlist_id@)), ("songs"@, song_list(song_ids@))],
        ),
{
    let d: Draft = Draft::new().text("playlist_id", playlist_id).with(
        "songs",
        songs(song_ids),
        Ghost(song_list(song_ids@)),
    );
    Request { method: "playlist.addSongs", params: d.done() }
}

/// Removes tracks from a playlist.
pub fn remove_from_playlist(playlist_id: &str, song_ids: &Vec<String>) -> (r: Request)
    ensures
        asks(
            r,
            "playlist.deleteSongs"@,
            seq![("playlist_id"@, Param::Text(playlist_id@)), ("songs"@, song_list(song_ids@))],
        ),
{
    let d: Draft = Draft::new().text("playlist_id", playlist_id).with(
        "songs",
        songs(song_ids),
        Ghost(song_list(song_ids@)),
    );
    Request { method: "playlist.deleteSongs", params: d.done() }
}

/// Asks not to be recommended a track again.
pub fn dislike_track(song_id: &str) -> (r: Request)
    ensures
        asks(r, "song.dislike"@, seq![("SNG_ID"@, Param::Text(song_id@))]),
{
    Request { method: "song.dislike", params: Draft::new().text("SNG_ID", song_id).done() }
}

/// Creates an empty playlist.
pub fn create_playlist(title: &str) -> (r: Request)
    ensures
        asks(
            r,
            "playlist.create"@,
            seq![
                ("title"@, Param::Text(title@)),
                ("status"@, Param::Num(0)),
                ("description"@, Param::Text(""@)),
                ("songs"@, Param::List(Seq::empty())),
            ],
        ),
{
    let none: Vec<Json> = Vec::new();
    let d: Draft = Draft::new().text("title", title).num("status", 0).text("description", "").with(
        "songs",
        Json::Array(none),
        Ghost(Param::List(Seq::empty())),
    );
    Request { method: "playlist.create", params: d.done() }
}

/// Renames a playlist.
pub fn rename_playlist(playlist_id: &str, new_title: &str) -> (r: Request)
    ensures
        asks(
            r,
            "playlist.update"@,
            seq![
                ("playlist_id"@, Param::Text(playlist_id@)),
                ("title"@, Param::Text(new_title@)),
            ],
        ),
{
    let d: Draft = Draft::new().text("playlist_id", playlist_id).text("title", new_title);
    Request { method: "playlist.update", params: d.done() }
}

/// Deletes a playlist.
pub fn delete_playlist(playlist_id: &str) -> (r: Request)
    ensures
        asks(r, "playlist.delete"@, seq![("playlist_id"@, Param::Text(playlist_id@))]),
{
    Request { method: "playlist.delete", params: Draft::new().text("playlist_id", playlist_id).done() }
}

/// Asks for a playlist's page.
pub fn get_playlist_detail(playlist_id: &str) -> (r: Request)
    ensures
        asks(
            r,
            "deezer.pagePlaylist"@,
            seq![
                ("playlist_id"@, Param::Text(playlist_id@)),
                ("start"@, Param::Num(0)),
                ("nb"@, Param::Num(2000)),
                ("lang"@, Param::Text("en"@)),
                ("tab"@, Param::Num(0)),
                ("tags"@, Param::Flag(true)),
                ("header"@, Param::Flag(true)),
            ],
        ),
{
    let d: Draft = Draft::new().text("playlist_id", playlist_id).num("start", 0).num(
        "nb",
        2000,
    ).text("lang", "en").num("tab", 0).flag("tags", true).flag("header", true);
    Request { method: "deezer.pagePlaylist", params: d.done() }
}

/// Asks for a mix inspired by a track.
pub fn get_smart_radio(song_id: &str) -> (r: Request)
    ensures
        asks(r, "song.getSearchTrackMix"@, seq![("SNG_ID"@, Param::Text(song_id@))]),
{
    Request { method: "song.getSearchTrackMix", params: Draft::new().text("SNG_ID", song_id).done() }
}

/// Asks for the user's Flow.
pub fn get_flow(user_id: u64) -> (r: Request)
    ensures
        asks(r, "radio.getUserRadio"@, seq![("user_id"@, Param::Num(user_id))]),
{
    Request { method: "radio.getUserRadio", params: Draft::new().num("user_id", user_id).done() }
}

/// A play is told as it was: when, which track in which format, and where it was
/// played from.
pub proof fn a_play_is_told_as_it_was(
    ts_listen: u64,
    track_id: Seq<char>,
    format: Seq<char>,
    ctxt_id: Seq<char>,
    ctxt_type: Seq<char>,
)
    ensures
        ({
            let told = listen_params(ts_listen, track_id, format, ctxt_id, ctxt_type);
            &&& told[0] == ("ts_listen"@, Param::Num(ts_listen))
            &&& told[3].0 == "media"@
            &&& told[3].1 matches Param::Record(media) && {
                &&& media[0] == ("id"@, json::id_param(track_id))
                &&& media[2] == ("format"@, Param::Text(format))
            }
            &&& told[4].0 == "ctxt"@
            &&& told[4].1 matches Param::Record(place) && {
                &&& place[0] == ("id"@, json::id_param(ctxt_id))
                &&& place[1] == ("t"@, Param::Text(ctxt_type))
            }
        }),
{
}

/// Tracks are listed in a request one by one, in their order.
pub proof fn tracks_are_listed_in_order(ids: Seq<String>, numbers: Seq<u64>, i: int)
    ensures
        0 <= i < ids.len() ==> {
            &&& song_list(ids) matches Param::List(songs) && songs.len() == ids.len() && songs[i]
                == Param::List(seq![Param::Text(ids[i]@), Param::Num(0)])
            &&& text_list(ids) matches Param::List(texts) && texts.len() == ids.len() && texts[i]
                == Param::Text(ids[i]@)
        },
        0 <= i < numbers.len() ==> (number_list(numbers) matches Param::List(list) && list.len()
            == numbers.len() && list[i] == Param::Num(numbers[i])),
{
}

} // verus!
