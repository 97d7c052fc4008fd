//! The playback session manager's decisions: the name of an episode's
//! cache file, the in-memory model of which audio files are cached (one
//! download per episode, a cache hit afterwards), and the single live
//! playback session. Downloading, decoding and the output device are the
//! caller's; this module decides, the caller performs.

use vstd::prelude::*;

verus! {

use vstd::string::StringExecFns;
use crate::podcast::{Episode, EpisodeModel};
use crate::strutil::{spec_two_digits, str_eq, two_digit_string};

/// Why playback could not be started.
#[derive(Debug)]
pub enum PlaybackError {
    /// The episode's MIME type is not the one supported audio format.
    UnsupportedAudioFormat,
    /// The audio download failed; carries the fetcher's message.
    Network(String),
    /// The cached file could not be opened or decoded; carries the
    /// decoder's message.
    Decode(String),
}

impl PlaybackError {
    /// A human-readable account of the failure.
    pub open spec fn spec_message(self) -> Seq<char> {
        match self {
            PlaybackError::UnsupportedAudioFormat => "audio format not supported"@,
            PlaybackError::Network(m) => "audio download failed: "@ + m@,
            PlaybackError::Decode(m) => "could not play audio: "@ + m@,
        }
    }

    /// Writes the failure for display.
    pub fn message(&self) -> (r: String)
        ensures
            r@ == self.spec_message(),
    {
        match self {
            PlaybackError::UnsupportedAudioFormat => "audio format not supported".to_owned(),
            PlaybackError::Network(m) => {
                let mut s = "audio download failed: ".to_owned();
                s.append(m.as_str());
                s
            },
            PlaybackError::Decode(m) => {
                let mut s = "could not play audio: ".to_owned();
                s.append(m.as_str());
                s
            },
        }
    }
}

/// The cache file of an episode's audio: a file named after the episode
/// title inside the podcast's own directory, with the extension its MIME
/// type implies. Only `audio/mpeg` is supported; any other MIME type is
/// a hard error, never a silent skip.
pub open spec fn spec_audio_file_name(podcast_title: Seq<char>, ep: EpisodeModel) -> Result<
    Seq<char>,
    PlaybackError,
> {
    if ep.audio_mime_type == "audio/mpeg"@ {
        Result::Ok(podcast_title + "/"@ + ep.title + ".mp3"@)
    } else {
        Result::Err(PlaybackError::UnsupportedAudioFormat)
    }
}

/// Computes the cache file name of an episode's audio.
pub fn audio_file_name(podcast_title: &str, ep: &Episode) -> (r: Result<String, PlaybackError>)
    ensures
        match r {
            Result::Ok(name) => spec_audio_file_name(podcast_title@, ep@) == Result::<
                Seq<char>,
                PlaybackError,
            >::Ok(name@),
            Result::Err(e) => spec_audio_file_name(podcast_title@, ep@) == Result::<
                Seq<char>,
                PlaybackError,
            >::Err(e),
        },
{
    if str_eq(ep.audio_mime_type.as_str(), "audio/mpeg") {
        let mut name = podcast_title.to_owned();
        name.append("/");
        name.append(ep.title.as_str());
        name.append(".mp3");
        Result::Ok(name)
    } else {
        Result::Err(PlaybackError::UnsupportedAudioFormat)
    }
}

/// Whether the cache holds a file of this name.
pub open spec fn spec_cached(cache: Seq<Seq<char>>, name: Seq<char>) -> bool {
    exists|i: int| 0 <= i < cache.len() && cache[i] == name
}

/// The cache after one download of `name` is recorded: unchanged when
/// the file was already there.
pub open spec fn spec_record(cache: Seq<Seq<char>>, name: Seq<char>) -> Seq<Seq<char>> {
    if spec_cached(cache, name) {
        cache
    } else {
        cache.push(name)
    }
}

/// The set of audio files known to be fully downloaded. A file is
/// recorded only once its content is completely written, and is treated
/// as immutable from then on: being recorded is sufficient to skip any
/// further download of the same episode.
pub struct AudioCache {
    files: Vec<String>,
}

impl View for AudioCache {
    type V = Seq<Seq<char>>;

    closed spec fn view(&self) -> Seq<Seq<char>> {
        Seq::new(self.files@.len(), |i: int| self.files@[i]@)
    }
}

impl AudioCache {
    /// A cache that knows of no downloaded files.
    pub fn new() -> (c: AudioCache)
        ensures
            c@ == Seq::<Seq<char>>::empty(),
    {
        let c = AudioCache { files: Vec::new() };
        proof {
            assert(c@ =~= Seq::<Seq<char>>::empty());
        }
        c
    }

    /// Whether the file is already cached.
    pub fn contains(&self, name: &str) -> (r: bool)
        ensures
            r == spec_cached(self@, name@),
    {
        let mut i: usize = 0;
        while i < self.files.len()
            invariant
                i <= self.files@.len(),
                forall|k: int| 0 <= k < i ==> self@[k] != name@,
            decreases self.files@.len() - i,
        {
            if str_eq(self.files[i].as_str(), name) {
                assert(self@[i as int] == name@);
                return true;
            }
            i = i + 1;
        }
        false
    }

    /// Records one finished download.
    pub fn record(&mut self, name: String)
        ensures
            final(self)@ == spec_record(old(self)@, name@),
    {
        if !self.contains(name.as_str()) {
            let ghost pre = self@;
            self.files.push(name);
            proof {
                assert(self@ =~= pre.push(name@));
            }
        }
    }
}

/// Whether playing a file requires a download first: exactly when the
/// cache does not hold it. Together with `AudioCache::record`, this is
/// the whole caching rule: the first playback request for an episode
/// downloads its audio once, and any later request is a cache hit.
pub fn needs_download(cache: &AudioCache, file_name: &str) -> (r: bool)
    ensures
        r == !spec_cached(cache@, file_name@),
{
    !cache.contains(file_name)
}

/// A second playback request for the same episode triggers zero
/// downloads: once its one download is recorded, the file is cached, and
/// whatever was cached before stays cached.
pub proof fn lemma_second_request_is_cache_hit(cache: Seq<Seq<char>>, name: Seq<char>)
    ensures
        spec_cached(spec_record(cache, name), name),
        forall|m: Seq<char>| spec_cached(cache, m) ==> spec_cached(spec_record(cache, name), m),
{
    if !spec_cached(cache, name) {
        let pushed = cache.push(name);
        assert(pushed[cache.len() as int] == name);
    }
    assert forall|m: Seq<char>| spec_cached(cache, m) implies spec_cached(
        spec_record(cache, name),
        m,
    ) by {
        let i = choose|i: int| 0 <= i < cache.len() && cache[i] == m;
        assert(spec_record(cache, name)[i] == m);
    }
}

/// The single live playback session: its display title, its total
/// duration in seconds (zero when the decoder cannot determine it), and
/// whether output is paused.
pub struct PlaybackSession {
    pub title: String,
    pub total_duration_secs: u64,
    pub paused: bool,
}

/// The mathematical shape of a `PlaybackSession`.
pub struct PlaybackSessionModel {
    pub title: Seq<char>,
    pub total_duration_secs: u64,
    pub paused: bool,
}

impl View for PlaybackSession {
    type V = PlaybackSessionModel;

    open spec fn view(&self) -> PlaybackSessionModel {
        PlaybackSessionModel {
            title: self.title@,
            total_duration_secs: self.total_duration_secs,
            paused: self.paused,
        }
    }
}

/// The playback manager: at most one session is alive at any time.
pub struct PlaybackManager {
    session: Option<PlaybackSession>,
}

impl View for PlaybackManager {
    type V = Option<PlaybackSessionModel>;

    closed spec fn view(&self) -> Option<PlaybackSessionModel> {
        match self.session {
            Option::None => Option::None,
            Option::Some(s) => Option::Some(s@),
        }
    }
}

impl PlaybackManager {
    /// A manager with no session playing.
    pub fn new() -> (m: PlaybackManager)
        ensures
            m@ is None,
    {
        PlaybackManager { session: None }
    }

    /// The live session, if one exists.
    pub fn session(&self) -> (s: Option<&PlaybackSession>)
        ensures
            match s {
                Option::Some(session) => self@ == Option::Some(session@),
                Option::None => self@ is None,
            },
    {
        match &self.session {
            Option::Some(s) => Option::Some(s),
            Option::None => Option::None,
        }
    }

    /// Starts a new session. Whatever session was active is handed back
    /// for the caller to tear its output down: afterwards exactly the
    /// new session is active, never two.
    pub fn start(&mut self, session: PlaybackSession) -> (prev: Option<PlaybackSession>)
        ensures
            final(self)@ == Option::Some(session@),
            match prev {
                Option::Some(p) => old(self)@ == Option::Some(p@),
                Option::None => old(self)@ is None,
            },
    {
        let prev = self.session.take();
        self.session = Option::Some(session);
        prev
    }

    /// Flips the session between paused and playing, and says which of
    /// the two the output device must now be put in; a no-op, returning
    /// nothing, when no session exists.
    pub fn toggle_pause(&mut self) -> (r: Option<bool>)
        ensures
            match old(self)@ {
                Option::None => final(self)@ is None && r is None,
                Option::Some(s) => final(self)@ == Option::Some(
                    PlaybackSessionModel { paused: !s.paused, ..s },
                ) && r == Option::Some(!s.paused),
            },
    {
        match &mut self.session {
            Option::None => Option::None,
            Option::Some(s) => {
                s.paused = !s.paused;
                Option::Some(s.paused)
            },
        }
    }
}

/// Writes a duration given in seconds as zero-padded `hh:mm:ss`.
pub open spec fn spec_format_duration(total: nat) -> Seq<char> {
    spec_two_digits(total / 3600) + seq![':'] + spec_two_digits((total % 3600) / 60) + seq![':']
        + spec_two_digits(total % 60)
}

/// Formats a playback position or duration for display.
pub fn format_audio_duration(total_seconds: u64) -> (r: String)
    ensures
        r@ == spec_format_duration(total_seconds as nat),
{
    proof {
        reveal_strlit(":");
    }
    let hours = total_seconds / 3600;
    let minutes = (total_seconds % 3600) / 60;
    let seconds = total_seconds % 60;
    let mut r = two_digit_string(hours);
    r.append(":");
    let m = two_digit_string(minutes);
    r.append(m.as_str());
    r.append(":");
    let s = two_digit_string(seconds);
    r.append(s.as_str());
    proof {
        assert(r@ =~= spec_format_duration(total_seconds as nat));
    }
    r
}

} // verus!

