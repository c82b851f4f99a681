//! Fetching the audio of a track: which request follows which, what a failure
//! leads to, and how far a download has got.

use vstd::prelude::*;

use crate::models::{AudioQuality, TrackData};

verus! {

/// What is to be done next to fetch a track.
#[derive(Debug)]
#[allow(inconsistent_fields)]
pub enum FetchAction {
    /// Download audio that is not encrypted.
    DownloadDirect { url: String },
    /// Ask for a track's data, with a fresh token.
    GetTrack { track_id: String },
    /// Ask where a track's audio is.
    GetStreamUrl { track: TrackData, quality: AudioQuality },
    /// Download a track's audio and decrypt it.
    Download { url: String, track_id: String },
    /// The audio is there.
    Ready { track: TrackData, quality: AudioQuality },
    /// There is no audio to be had.
    Failed { err: FetchError },
}

/// Why a track could not be fetched.
#[derive(Debug)]
pub enum FetchError {
    /// The decryption key is not there.
    NotReady,
    /// What the service or the network reports.
    Service(String),
}

/// What came of an action.
#[derive(Debug)]
#[allow(inconsistent_fields)]
pub enum FetchEvent {
    /// A track's data.
    Track(TrackData),
    /// Where the audio is, and in which quality.
    Url { url: String, quality: AudioQuality },
    /// The audio was downloaded.
    Downloaded,
    /// The action failed.
    Failed(String),
}

/// Which answer is waited for.
#[derive(Debug)]
#[allow(inconsistent_fields)]
pub enum FetchStage {
    /// The audio of a podcast episode that is not encrypted.
    Direct,
    /// The data of a track that came without a token.
    Token,
    /// Where the audio is.
    FirstUrl { track: TrackData },
    /// Fresh data, since the token may have expired.
    Refresh { first_err: String },
    /// Where the audio is, asked with the fresh token.
    RetryUrl { track: TrackData, first_err: String },
    /// The data of the track that stands in for this one.
    Substitute,
    /// Where the audio of that track is.
    SubstituteUrl { track: TrackData },
    /// The audio.
    Audio { track: TrackData, quality: AudioQuality },
    /// Nothing any more.
    Over,
}

/// A track that is being fetched.
#[derive(Debug)]
pub struct FetchTask {
    /// The track that was asked for. A track that stands in for it takes on its
    /// id and credits, so that the change does not show.
    pub requested: TrackData,
    /// The quality that was asked for.
    pub quality: AudioQuality,
    /// The decryption key is there.
    pub key_ready: bool,
    pub stage: FetchStage,
}

/// The answer is one that the stage waits for.
pub open spec fn answers(stage: FetchStage, event: FetchEvent) -> bool {
    match stage {
        FetchStage::Direct | FetchStage::Audio { .. } => event is Downloaded || event is Failed,
        FetchStage::Token | FetchStage::Refresh { .. } | FetchStage::Substitute => event is Track
            || event is Failed,
        FetchStage::FirstUrl { .. } | FetchStage::RetryUrl { .. }
        | FetchStage::SubstituteUrl { .. } => event is Url || event is Failed,
        FetchStage::Over => false,
    }
}

/// Asking where the audio of a track is.
pub open spec fn ask_url(track: TrackData, quality: AudioQuality) -> FetchAction {
    FetchAction::GetStreamUrl { track, quality }
}

/// Giving up.
pub open spec fn give_up(err: String) -> (FetchStage, FetchAction) {
    (FetchStage::Over, FetchAction::Failed { err: FetchError::Service(err) })
}

/// How fetching begins: an episode with a stream of its own is downloaded as it
/// is; otherwise a token is needed, and then the place of the audio.
pub open spec fn first_step(track: TrackData, quality: AudioQuality) -> (FetchStage, FetchAction) {
    match track.stream_url {
        Some(url) => (FetchStage::Direct, FetchAction::DownloadDirect { url }),
        None => if track.token_present() {
            (FetchStage::FirstUrl { track }, ask_url(track, quality))
        } else {
            (FetchStage::Token, FetchAction::GetTrack { track_id: track.track_id })
        },
    }
}

/// How fetching goes on once the place of the audio is known.
pub open spec fn found_url(
    key_ready: bool,
    track: TrackData,
    url: String,
    quality: AudioQuality,
) -> (FetchStage, FetchAction) {
    if key_ready {
        (
            FetchStage::Audio { track, quality },
            FetchAction::Download { url, track_id: track.track_id },
        )
    } else {
        (FetchStage::Over, FetchAction::Failed { err: FetchError::NotReady })
    }
}

/// How fetching goes on after an answer. A place that is refused is asked for
/// again with a fresh token, then for the track that stands in for this one;
/// without one, the first refusal is what is reported.
pub open spec fn next_step(
    requested: TrackData,
    wanted: AudioQuality,
    key_ready: bool,
    stage: FetchStage,
    event: FetchEvent,
) -> (FetchStage, FetchAction) {
    match (stage, event) {
        (FetchStage::Direct, FetchEvent::Downloaded) => (
            FetchStage::Over,
            FetchAction::Ready { track: requested, quality: wanted },
        ),
        (FetchStage::Token, FetchEvent::Track(track)) => (
            FetchStage::FirstUrl { track },
            ask_url(track, wanted),
        ),
        (FetchStage::FirstUrl { track }, FetchEvent::Url { url, quality }) => found_url(
            key_ready,
            track,
            url,
            quality,
        ),
        (FetchStage::FirstUrl { track }, FetchEvent::Failed(err)) => (
            FetchStage::Refresh { first_err: err },
            FetchAction::GetTrack { track_id: track.track_id },
        ),
        (FetchStage::Refresh { first_err }, FetchEvent::Track(track)) => (
            FetchStage::RetryUrl { track, first_err },
            ask_url(track, wanted),
        ),
        (FetchStage::RetryUrl { track, first_err }, FetchEvent::Url { url, quality }) => found_url(
            key_ready,
            track,
            url,
            quality,
        ),
        (FetchStage::RetryUrl { track, first_err }, FetchEvent::Failed(_)) => match track.fallback_id {
            Some(id) => (FetchStage::Substitute, FetchAction::GetTrack { track_id: id }),
            None => give_up(first_err),
        },
        (FetchStage::Substitute, FetchEvent::Track(track)) => (
            FetchStage::SubstituteUrl { track },
            ask_url(track, wanted),
        ),
        (FetchStage::SubstituteUrl { track }, FetchEvent::Url { url, quality }) => found_url(
            key_ready,
            track,
            url,
            quality,
        ),
        (FetchStage::Audio { track, quality }, FetchEvent::Downloaded) => (
            FetchStage::Over,
            FetchAction::Ready { track: track.identified_as(requested), quality },
        ),
        (_, FetchEvent::Failed(err)) => give_up(err),
        _ => (stage, FetchAction::Failed { err: FetchError::NotReady }),
    }
}

impl FetchTask {
    /// Begins to fetch a track.
    pub fn begin(track: TrackData, quality: AudioQuality, key_ready: bool) -> (r: (
        FetchTask,
        FetchAction,
    ))
        ensures
            r.0.requested == track,
            r.0.quality == quality,
            r.0.key_ready == key_ready,
            (r.0.stage, r.1) == first_step(track, quality),
    {
        let url: Option<String> = match track.direct_stream_url() {
            Some(url) => Some(url.clone()),
            None => None,
        };
        let (stage, action) = match url {
            Some(url) => (FetchStage::Direct, FetchAction::DownloadDirect { url }),
            None => {
                if track.has_track_token() {
                    (
                        FetchStage::FirstUrl { track: track.clone() },
                        FetchAction::GetStreamUrl { track: track.clone(), quality },
                    )
                } else {
                    (
                        FetchStage::Token,
                        FetchAction::GetTrack { track_id: track.track_id.clone() },
                    )
                }
            },
        };
        (FetchTask { requested: track, quality, key_ready, stage }, action)
    }

    /// Takes note of an answer and tells what is to be done next.
    pub fn step(&mut self, event: FetchEvent) -> (r: FetchAction)
        requires
            answers(old(self).stage, event),
        ensures
            final(self).requested == old(self).requested,
            final(self).quality == old(self).quality,
            final(self).key_ready == old(self).key_ready,
            (final(self).stage, r) == next_step(
                old(self).requested,
                old(self).quality,
                old(self).key_ready,
                old(self).stage,
                event,
            ),
    {
        let mut stage: FetchStage = FetchStage::Over;
        std::mem::swap(&mut stage, &mut self.stage);
        match (stage, event) {
            (FetchStage::Direct, FetchEvent::Downloaded) => FetchAction::Ready {
                track: self.requested.clone(),
                quality: self.quality,
            },
            (FetchStage::Token, FetchEvent::Track(track)) => {
                self.stage = FetchStage::FirstUrl { track: track.clone() };
                FetchAction::GetStreamUrl { track, quality: self.quality }
            },
            (FetchStage::FirstUrl { track }, FetchEvent::Url { url, quality }) => {
                self.found(track, url, quality)
            },
            (FetchStage::FirstUrl { track }, FetchEvent::Failed(err)) => {
                self.stage = FetchStage::Refresh { first_err: err };
                FetchAction::GetTrack { track_id: track.track_id }
            },
            (FetchStage::Refresh { first_err }, FetchEvent::Track(track)) => {
                self.stage = FetchStage::RetryUrl { track: track.clone(), first_err };
                FetchAction::GetStreamUrl { track, quality: self.quality }
            },
            (FetchStage::RetryUrl { track, first_err }, FetchEvent::Url { url, quality }) => {
                self.found(track, url, quality)
            },
            (FetchStage::RetryUrl { track, first_err }, FetchEvent::Failed(_)) => {
                match track.fallback_id {
                    Some(id) => {
                        self.stage = FetchStage::Substitute;
                        FetchAction::GetTrack { track_id: id }
                    },
                    None => FetchAction::Failed { err: FetchError::Service(first_err) },
                }
            },
            (FetchStage::Substitute, FetchEvent::Track(track)) => {
                self.stage = FetchStage::SubstituteUrl { track: track.clone() };
                FetchAction::GetStreamUrl { track, quality: self.quality }
            },
            (FetchStage::SubstituteUrl { track }, FetchEvent::Url { url, quality }) => {
                self.found(track, url, quality)
            },
            (FetchStage::Audio { track, quality }, FetchEvent::Downloaded) => FetchAction::Ready {
                track: track.with_identity_of(&self.requested),
                quality,
            },
            (_, FetchEvent::Failed(err)) => FetchAction::Failed { err: FetchError::Service(err) },
            _ => FetchAction::Failed { err: FetchError::NotReady },
        }
    }

    /// Goes on to the audio, whose place is known.
    fn found(&mut self, track: TrackData, url: String, quality: AudioQuality) -> (r: FetchAction)
        requires
            old(self).stage is Over,
        ensures
            final(self).requested == old(self).requested,
            final(self).quality == old(self).quality,
            final(self).key_ready == old(self).key_ready,
            (final(self).stage, r) == found_url(old(self).key_ready, track, url, quality),
    {
        if self.key_ready {
            let track_id: String = track.track_id.clone();
            self.stage = FetchStage::Audio { track, quality };
            FetchAction::Download { url, track_id }
        } else {
            FetchAction::Failed { err: FetchError::NotReady }
        }
    }
}

/// How many answers are still to come at most.
pub open spec fn answers_left(stage: FetchStage) -> nat {
    match stage {
        FetchStage::Token => 7,
        FetchStage::FirstUrl { .. } => 6,
        FetchStage::Refresh { .. } => 5,
        FetchStage::RetryUrl { .. } => 4,
        FetchStage::Substitute => 3,
        FetchStage::SubstituteUrl { .. } => 2,
        FetchStage::Audio { .. } => 1,
        FetchStage::Direct => 1,
        FetchStage::Over => 0,
    }
}

/// Fetching a track comes to an end: every answer brings it closer, and it is over
/// exactly when the audio is there or there is none to be had.
pub proof fn fetching_ends(
    requested: TrackData,
    wanted: AudioQuality,
    key_ready: bool,
    stage: FetchStage,
    event: FetchEvent,
)
    requires
        answers(stage, event),
    ensures
        ({
            let (next, action) = next_step(requested, wanted, key_ready, stage, event);
            &&& answers_left(next) < answers_left(stage)
            &&& next is Over <==> (action is Ready || action is Failed)
        }),
{
}

/// What plays in the end is the track that was asked for: its id and credits are
/// shown even where another track stands in for it.
pub proof fn substitutes_do_not_show(
    requested: TrackData,
    wanted: AudioQuality,
    key_ready: bool,
    stage: FetchStage,
    event: FetchEvent,
)
    requires
        answers(stage, event),
    ensures
        next_step(requested, wanted, key_ready, stage, event).1 matches FetchAction::Ready {
            track,
            quality,
        } ==> {
            &&& track.track_id == requested.track_id
            &&& track.title == requested.title
            &&& track.artist == requested.artist
            &&& track.album == requested.album
        },
{
}

/// Nothing encrypted is downloaded without the key.
pub proof fn no_download_without_the_key(
    requested: TrackData,
    wanted: AudioQuality,
    stage: FetchStage,
    event: FetchEvent,
)
    requires
        answers(stage, event),
    ensures
        !(next_step(requested, wanted, false, stage, event).1 is Download),
{
}

/// Every request for the place of the audio asks for the quality that the fetch
/// was begun with: at its beginning for the track that is wanted, which then has
/// a token, and later for the track whose data has just come.
pub proof fn places_are_asked_in_the_wanted_quality(
    requested: TrackData,
    wanted: AudioQuality,
    key_ready: bool,
    stage: FetchStage,
    event: FetchEvent,
)
    requires
        answers(stage, event),
    ensures
        first_step(requested, wanted).1 matches FetchAction::GetStreamUrl { track, quality } ==> {
            &&& quality == wanted
            &&& track == requested
            &&& track.track_token is Some && track.track_token->0@.len() > 0
            &&& first_step(requested, wanted).0 == FetchStage::FirstUrl { track }
        },
        next_step(requested, wanted, key_ready, stage, event).1 matches FetchAction::GetStreamUrl {
            track,
            quality,
        } ==> {
            &&& quality == wanted
            &&& event == FetchEvent::Track(track)
        },
{
}

/// A fetch begins with what brings the audio nearer: the stream of its own that
/// an episode has, the place of the audio where there is a token, and the track's
/// data where there is none.
pub proof fn fetching_begins_with_what_is_missing(track: TrackData, wanted: AudioQuality)
    ensures
        ({
            let (stage, action) = first_step(track, wanted);
            let token = track.track_token is Some && track.track_token->0@.len() > 0;
            match track.stream_url {
                Some(own) => action == (FetchAction::DownloadDirect { url: own }) && stage is Direct,
                None => if token {
                    action == FetchAction::GetStreamUrl { track, quality: wanted }
                } else {
                    action == (FetchAction::GetTrack { track_id: track.track_id })
                        && stage is Token
                },
            }
        }),
{
}

/// The data of a track is answered by asking where its audio is; the place is
/// answered by downloading that track's audio from there, if the key is there;
/// and the audio, once downloaded, is that track's in the quality that the place
/// has.
pub proof fn data_leads_to_the_place_and_the_place_to_the_audio(
    requested: TrackData,
    wanted: AudioQuality,
    key_ready: bool,
    stage: FetchStage,
    track: TrackData,
    url: String,
    quality: AudioQuality,
)
    requires
        stage is Token || stage is Refresh || stage is Substitute,
    ensures
        ({
            let (asked, ask) = next_step(
                requested,
                wanted,
                key_ready,
                stage,
                FetchEvent::Track(track),
            );
            let (placed, load) = next_step(
                requested,
                wanted,
                key_ready,
                asked,
                FetchEvent::Url { url, quality },
            );
            let (done, end) = next_step(
                requested,
                wanted,
                key_ready,
                placed,
                FetchEvent::Downloaded,
            );
            &&& ask == FetchAction::GetStreamUrl { track, quality: wanted }
            &&& key_ready ==> {
                &&& load == FetchAction::Download { url, track_id: track.track_id }
                &&& end matches FetchAction::Ready { track: heard, quality: in_quality }
                &&& in_quality == quality
                &&& heard.track_id == requested.track_id
                &&& heard.title == requested.title
                &&& heard.artist == requested.artist
                &&& heard.album == requested.album
                &&& heard.album_picture == requested.album_picture
                &&& heard.artist_id == requested.artist_id
                &&& heard.album_id == requested.album_id
                &&& heard.duration == track.duration
                &&& heard.track_token == track.track_token
                &&& done is Over
            }
            &&& !key_ready ==> {
                &&& load == FetchAction::Failed { err: FetchError::NotReady }
                &&& placed is Over
            }
        }),
{
}

/// A place that is refused at first is asked for again with fresh data of the
/// same track. Refused again, the track that stands in for it is asked for; where
/// there is none, the first refusal is what is reported.
pub proof fn a_refused_place_is_asked_for_again(
    requested: TrackData,
    wanted: AudioQuality,
    key_ready: bool,
    track: TrackData,
    fresh: TrackData,
    first: String,
    second: String,
)
    ensures
        ({
            let (waits, action) = next_step(
                requested,
                wanted,
                key_ready,
                FetchStage::FirstUrl { track },
                FetchEvent::Failed(first),
            );
            let (again, ask) = next_step(
                requested,
                wanted,
                key_ready,
                waits,
                FetchEvent::Track(fresh),
            );
            let (then, last) = next_step(
                requested,
                wanted,
                key_ready,
                again,
                FetchEvent::Failed(second),
            );
            &&& action == FetchAction::GetTrack { track_id: track.track_id }
            &&& ask == FetchAction::GetStreamUrl { track: fresh, quality: wanted }
            &&& fresh.fallback_id is Some ==> last == FetchAction::GetTrack {
                track_id: fresh.fallback_id->0,
            }
            &&& fresh.fallback_id is None ==> {
                &&& last == FetchAction::Failed { err: FetchError::Service(first) }
                &&& then is Over
            }
        }),
{
}

/// Every other failure ends the fetch, and is what is reported.
pub proof fn other_failures_end_the_fetch(
    requested: TrackData,
    wanted: AudioQuality,
    key_ready: bool,
    stage: FetchStage,
    err: String,
)
    requires
        !(stage is FirstUrl) && !(stage is RetryUrl) && !(stage is Over),
    ensures
        ({
            let (end, action) = next_step(
                requested,
                wanted,
                key_ready,
                stage,
                FetchEvent::Failed(err),
            );
            action == (FetchAction::Failed { err: FetchError::Service(err) }) && end is Over
        }),
{
}

/// An episode that was downloaded from its own stream is ready as it is, in the
/// quality that was asked for.
pub proof fn episodes_are_ready_as_they_are(
    requested: TrackData,
    wanted: AudioQuality,
    key_ready: bool,
)
    ensures
        ({
            let (end, action) = next_step(
                requested,
                wanted,
                key_ready,
                FetchStage::Direct,
                FetchEvent::Downloaded,
            );
            action == (FetchAction::Ready { track: requested, quality: wanted }) && end is Over
        }),
{
}

// ── Downloads for offline use ───────────────────────────────────────

/// Which answer the download of a track waits for.
#[derive(Debug)]
#[allow(inconsistent_fields)]
pub enum SaveStage {
    Token,
    Url { track: TrackData },
    Audio { track: TrackData, quality: AudioQuality },
    Over,
}

/// The answer is one that the stage waits for.
pub open spec fn save_answers(stage: SaveStage, event: FetchEvent) -> bool {
    match stage {
        SaveStage::Token => event is Track || event is Failed,
        SaveStage::Url { .. } => event is Url || event is Failed,
        SaveStage::Audio { .. } => event is Downloaded || event is Failed,
        SaveStage::Over => false,
    }
}

/// How the download of a track begins.
pub open spec fn first_save_step(track: TrackData, wanted: AudioQuality) -> (
    SaveStage,
    FetchAction,
) {
    if track.token_present() {
        (SaveStage::Url { track }, ask_url(track, wanted))
    } else {
        (SaveStage::Token, FetchAction::GetTrack { track_id: track.track_id })
    }
}

/// How the download of a track goes on. Nothing is tried twice.
pub open spec fn next_save_step(wanted: AudioQuality, stage: SaveStage, event: FetchEvent) -> (
    SaveStage,
    FetchAction,
) {
    match (stage, event) {
        (SaveStage::Token, FetchEvent::Track(track)) => (
            SaveStage::Url { track },
            ask_url(track, wanted),
        ),
        (SaveStage::Url { track }, FetchEvent::Url { url, quality }) => (
            SaveStage::Audio { track, quality },
            FetchAction::Download { url, track_id: track.track_id },
        ),
        (SaveStage::Audio { track, quality }, FetchEvent::Downloaded) => (
            SaveStage::Over,
            FetchAction::Ready { track, quality },
        ),
        (_, FetchEvent::Failed(err)) => (
            SaveStage::Over,
            FetchAction::Failed { err: FetchError::Service(err) },
        ),
        _ => (stage, FetchAction::Failed { err: FetchError::NotReady }),
    }
}

/// A track that is being downloaded for offline use.
#[derive(Debug)]
pub struct SaveTask {
    pub quality: AudioQuality,
    pub stage: SaveStage,
}

impl SaveTask {
    /// Begins to download a track.
    pub fn begin(track: TrackData, quality: AudioQuality) -> (r: (SaveTask, FetchAction))
        ensures
            r.0.quality == quality,
            (r.0.stage, r.1) == first_save_step(track, quality),
    {
        if track.has_track_token() {
            let action: FetchAction = FetchAction::GetStreamUrl { track: track.clone(), quality };
            (SaveTask { quality, stage: SaveStage::Url { track } }, action)
        } else {
            (
                SaveTask { quality, stage: SaveStage::Token },
                FetchAction::GetTrack { track_id: track.track_id },
            )
        }
    }

    /// Takes note of an answer and tells what is to be done next.
    pub fn step(&mut self, event: FetchEvent) -> (r: FetchAction)
        requires
            save_answers(old(self).stage, event),
        ensures
            final(self).quality == old(self).quality,
            (final(self).stage, r) == next_save_step(old(self).quality, old(self).stage, event),
    {
        let mut stage: SaveStage = SaveStage::Over;
        std::mem::swap(&mut stage, &mut self.stage);
        match (stage, event) {
            (SaveStage::Token, FetchEvent::Track(track)) => {
                self.stage = SaveStage::Url { track: track.clone() };
                FetchAction::GetStreamUrl { track, quality: self.quality }
            },
            (SaveStage::Url { track }, FetchEvent::Url { url, quality }) => {
                let track_id: String = track.track_id.clone();
                self.stage = SaveStage::Audio { track, quality };
                FetchAction::Download { url, track_id }
            },
            (SaveStage::Audio { track, quality }, FetchEvent::Downloaded) => FetchAction::Ready {
                track,
                quality,
            },
            (_, FetchEvent::Failed(err)) => FetchAction::Failed { err: FetchError::Service(err) },
            _ => FetchAction::Failed { err: FetchError::NotReady },
        }
    }
}

/// A track that is saved is asked for in the quality that is wanted and kept in
/// the one that the place of its audio has: its data is asked for where it has no
/// token, then the place, then the audio from there.
pub proof fn saving_asks_for_the_wanted_quality(
    track: TrackData,
    wanted: AudioQuality,
    fresh: TrackData,
    url: String,
    quality: AudioQuality,
)
    ensures
        ({
            let token = track.track_token is Some && track.track_token->0@.len() > 0;
            let (begun, first) = first_save_step(track, wanted);
            let (asked, ask) = next_save_step(wanted, SaveStage::Token, FetchEvent::Track(fresh));
            let saved = if token {
                track
            } else {
                fresh
            };
            let (placed, load) = next_save_step(
                wanted,
                if token {
                    begun
                } else {
                    asked
                },
                FetchEvent::Url { url, quality },
            );
            let (done, end) = next_save_step(wanted, placed, FetchEvent::Downloaded);
            &&& first == (if token {
                FetchAction::GetStreamUrl { track, quality: wanted }
            } else {
                FetchAction::GetTrack { track_id: track.track_id }
            })
            &&& !token ==> begun is Token
            &&& ask == FetchAction::GetStreamUrl { track: fresh, quality: wanted }
            &&& load == FetchAction::Download { url, track_id: saved.track_id }
            &&& end == FetchAction::Ready { track: saved, quality }
            &&& done is Over
        }),
{
}

/// A failure ends the saving of a track, and is what is reported.
pub proof fn failures_end_the_saving(wanted: AudioQuality, stage: SaveStage, err: String)
    requires
        !(stage is Over),
    ensures
        ({
            let (end, action) = next_save_step(wanted, stage, FetchEvent::Failed(err));
            action == (FetchAction::Failed { err: FetchError::Service(err) }) && end is Over
        }),
{
}

/// How much of a list was downloaded, in percent. A track that failed counts too.
pub open spec fn percent_of(done: nat, total: nat) -> nat {
    if total == 0 {
        done * 100
    } else {
        done * 100 / total
    }
}

/// How much of a list was downloaded, in percent.
pub fn download_percent(done: usize, total: usize) -> (r: u8)
    requires
        done <= total,
    ensures
        r == percent_of(done as nat, total as nat),
{
    if total == 0 {
        return 0;
    }
    let share: u128 = (done as u128) * 100 / (total as u128);
    assert(done * 100 / total as int <= 100) by (nonlinear_arith)
        requires
            done <= total,
            total > 0,
    ;
    share as u8
}

/// A download that has come to its end shows a full hundred, and progress never
/// goes back.
pub proof fn progress_ends_at_a_hundred(done: nat, total: nat)
    requires
        done < total,
    ensures
        percent_of(0, total) == 0,
        percent_of(total, total) == 100,
        percent_of(done, total) <= percent_of(done + 1, total) <= 100,
        percent_of(done, total) * total <= done * 100 < (percent_of(done, total) + 1) * total,
{
    assert(total * 100 / total == 100) by (nonlinear_arith)
        requires
            total > 0,
    ;
    assert(done * 100 / total <= (done + 1) * 100 / total) by (nonlinear_arith)
        requires
            total > 0,
    ;
    assert((done + 1) * 100 / total <= 100) by (nonlinear_arith)
        requires
            total > 0,
            done + 1 <= total,
    ;
    let share = done * 100 / total;
    assert(share * total <= done * 100 < (share + 1) * total) by (nonlinear_arith)
        requires
            total > 0,
            share == done * 100 / total,
    ;
    assert(0nat * 100 / total == 0) by (nonlinear_arith)
        requires
            total > 0,
    ;
}

} // verus!
