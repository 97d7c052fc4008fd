//! The session controller: it owns the podcast collection, the
//! navigation stack, the selection and popup states, the refresh
//! progress, the audio cache model and the playback manager, and it
//! translates key input and completion events into state changes and
//! commands. A command names outside work — a fetch, a write, the
//! clipboard, the output device — that the surrounding event loop
//! performs before handing the outcome back in.

use vstd::prelude::*;

verus! {

use crate::nav::{spec_pop, spec_top, NavFrame, NavStack};
use crate::player::{
    needs_download,
    spec_audio_file_name,
    spec_cached,
    spec_record,
    audio_file_name,
    AudioCache,
    PlaybackError,
    PlaybackManager,
    PlaybackSession,
    PlaybackSessionModel,
};
use crate::podcast::{has_source_url, Podcast, PodcastCollection, PodcastModel};
use crate::sync::{
    spec_add_commit,
    spec_add_prepare,
    spec_refresh_step,
    add_commit,
    add_prepare,
    RefreshProgress,
    RefreshStatus,
    SyncError,
};
use crate::ui::{
    spec_normalize_int,
    spec_next_selection,
    spec_prev_selection,
    spec_scroll_down,
    spec_scroll_up,
    AddPodcastPopupState,
    EpisodeInfoPopupState,
    EpisodeListState,
    ErrorInfoPopupState,
    PodcastInfoPopupState,
    PodcastListState,
};

/// One key press, as the input layer hands it to the controller.
#[derive(Clone, Copy, Debug, PartialEq, Eq, Structural)]
pub enum Key {
    Char(char),
    Enter,
    Escape,
}

/// Outside work the controller asks for. The event loop performs it and
/// hands the outcome back through the matching `on_...` call.
pub enum Command {
    /// Nothing to do.
    Idle,
    /// Fetch the feed text at `url`; answer through `on_add_fetched`.
    FetchNewFeed { url: String },
    /// Fetch every subscribed feed's text, concurrently and in this
    /// order; answer each through `on_refresh_fetched` with its index.
    StartRefresh { urls: Vec<String> },
    /// Read the clipboard; answer through `on_clipboard`.
    ReadClipboard,
    /// Persist a newly added podcast; answer through `on_add_persisted`.
    PersistNewFeed { podcast: Podcast },
    /// Persist the subscribed podcast at `index` anew; answer through
    /// `on_refresh_persisted`.
    PersistFeed { index: usize },
    /// Make the audio at `file_name` playable: when `download` is set,
    /// first fetch `audio_url` and write the file so that it is complete
    /// the moment it exists (a temporary name and a rename), then report
    /// through `on_audio_downloaded`; open and decode the file and start
    /// playback, answering through `on_playback_started` or
    /// `on_playback_failed`.
    PreparePlayback { title: String, file_name: String, audio_url: String, download: bool },
    /// Pause or resume the output device.
    SetPaused { paused: bool },
}

/// The mathematical shape of a `Command`.
pub enum CommandModel {
    Idle,
    FetchNewFeed { url: Seq<char> },
    StartRefresh { urls: Seq<Seq<char>> },
    ReadClipboard,
    PersistNewFeed { podcast: PodcastModel },
    PersistFeed { index: usize },
    PreparePlayback { title: Seq<char>, file_name: Seq<char>, audio_url: Seq<char>, download: bool },
    SetPaused { paused: bool },
}

impl View for Command {
    type V = CommandModel;

    open spec fn view(&self) -> CommandModel {
        match self {
            Command::Idle => CommandModel::Idle,
            Command::FetchNewFeed { url } => CommandModel::FetchNewFeed { url: url@ },
            Command::StartRefresh { urls } => CommandModel::StartRefresh {
                urls: Seq::new(urls@.len(), |i: int| urls@[i]@),
            },
            Command::ReadClipboard => CommandModel::ReadClipboard,
            Command::PersistNewFeed { podcast } => CommandModel::PersistNewFeed {
                podcast: podcast@,
            },
            Command::PersistFeed { index } => CommandModel::PersistFeed { index: *index },
            Command::PreparePlayback { title, file_name, audio_url, download } => {
                CommandModel::PreparePlayback {
                    title: title@,
                    file_name: file_name@,
                    audio_url: audio_url@,
                    download: *download,
                }
            },
            Command::SetPaused { paused } => CommandModel::SetPaused { paused: *paused },
        }
    }
}

/// The mathematical shape of the whole controller state.
pub struct AppModel {
    pub podcasts: Seq<PodcastModel>,
    pub nav: Seq<NavFrame>,
    pub podcast_selected: Option<usize>,
    pub episode_selected: Option<usize>,
    pub podcast_scroll: u16,
    pub episode_scroll: u16,
    pub add_url: Seq<char>,
    pub error_msg: Seq<char>,
    pub session: Option<PlaybackSessionModel>,
    pub cache: Seq<Seq<char>>,
    pub progress: Seq<RefreshStatus>,
    pub running: bool,
}

/// The session controller's state.
pub struct App {
    podcasts: PodcastCollection,
    nav: NavStack,
    podcast_list: PodcastListState,
    episode_list: EpisodeListState,
    podcast_info: PodcastInfoPopupState,
    episode_info: EpisodeInfoPopupState,
    add_podcast: AddPodcastPopupState,
    error_info: ErrorInfoPopupState,
    player: PlaybackManager,
    cache: AudioCache,
    progress: RefreshProgress,
    running: bool,
}

impl View for App {
    type V = AppModel;

    closed spec fn view(&self) -> AppModel {
        AppModel {
            podcasts: self.podcasts@,
            nav: self.nav@,
            podcast_selected: self.podcast_list.spec_selected(),
            episode_selected: self.episode_list.spec_selected(),
            podcast_scroll: self.podcast_info.spec_scroll(),
            episode_scroll: self.episode_info.spec_scroll(),
            add_url: self.add_podcast.url@,
            error_msg: self.error_info.error_msg@,
            session: self.player@,
            cache: self.cache@,
            progress: self.progress@,
            running: self.running,
        }
    }
}

impl App {
    /// The controller's invariant: the collection keeps one entry per
    /// feed URL.
    pub open spec fn wf(&self) -> bool {
        crate::podcast::unique_source_urls(self@.podcasts)
    }

    /// A fresh controller: nothing subscribed, the root view active,
    /// nothing playing, nothing cached, the loop running.
    pub fn new() -> (app: App)
        ensures
            app.wf(),
            app@.podcasts == Seq::<PodcastModel>::empty(),
            app@.nav == Seq::<NavFrame>::empty(),
            app@.podcast_selected is None,
            app@.episode_selected is None,
            app@.add_url == Seq::<char>::empty(),
            app@.error_msg == Seq::<char>::empty(),
            app@.session is None,
            app@.cache == Seq::<Seq<char>>::empty(),
            app@.progress == Seq::<RefreshStatus>::empty(),
            app@.running,
    {
        App {
            podcasts: PodcastCollection::new(),
            nav: NavStack::new(),
            podcast_list: PodcastListState::new(),
            episode_list: EpisodeListState::new(),
            podcast_info: PodcastInfoPopupState::new(),
            episode_info: EpisodeInfoPopupState::new(),
            add_podcast: AddPodcastPopupState::new(),
            error_info: ErrorInfoPopupState::new(),
            player: PlaybackManager::new(),
            cache: AudioCache::new(),
            progress: RefreshProgress::new(0),
            running: true,
        }
    }

    /// Takes one persisted podcast into the collection at startup; a
    /// record whose URL is already present is skipped, so the unique-URL
    /// rule holds whatever the store held.
    pub fn load_podcast(&mut self, p: Podcast) -> (r: bool)
        requires
            old(self).wf(),
        ensures
            final(self).wf(),
            r == !has_source_url(old(self)@.podcasts, p@.source_url),
            final(self)@ == (AppModel {
                podcasts: spec_add_commit(old(self)@.podcasts, p@).0,
                podcast_selected: spec_normalize_int(
                    old(self)@.podcast_selected,
                    spec_add_commit(old(self)@.podcasts, p@).0.len() as int,
                ),
                ..old(self)@
            }),
    {
        let r = self.podcasts.insert(p);
        let n = self.podcasts.len();
        self.podcast_list.normalize(n);
        r
    }

    /// Whether the event loop should keep going.
    pub fn is_running(&self) -> (r: bool)
        ensures
            r == self@.running,
    {
        self.running
    }

    /// The subscribed podcasts.
    pub fn podcasts(&self) -> (c: &PodcastCollection)
        ensures
            c@ == self@.podcasts,
    {
        &self.podcasts
    }

    /// The active navigation frame; `None` at the root podcast list.
    pub fn nav_top(&self) -> (r: Option<NavFrame>)
        ensures
            r == spec_top(self@.nav),
    {
        self.nav.top()
    }

    /// How many frames are pushed over the root view.
    pub fn nav_depth(&self) -> (n: usize)
        ensures
            n == self@.nav.len(),
    {
        self.nav.depth()
    }

    /// The selected podcast, as stored.
    pub fn podcast_selected(&self) -> (r: Option<usize>)
        ensures
            r == self@.podcast_selected,
    {
        self.podcast_list.selected()
    }

    /// The selected episode, as stored.
    pub fn episode_selected(&self) -> (r: Option<usize>)
        ensures
            r == self@.episode_selected,
    {
        self.episode_list.selected()
    }

    /// The podcast info popup's scroll offset.
    pub fn podcast_scroll(&self) -> (r: u16)
        ensures
            r == self@.podcast_scroll,
    {
        self.podcast_info.scroll()
    }

    /// The episode info popup's scroll offset.
    pub fn episode_scroll(&self) -> (r: u16)
        ensures
            r == self@.episode_scroll,
    {
        self.episode_info.scroll()
    }

    /// The add-feed form's URL buffer.
    pub fn add_url(&self) -> (r: &String)
        ensures
            r@ == self@.add_url,
    {
        &self.add_podcast.url
    }

    /// The message the error popup shows.
    pub fn error_message(&self) -> (r: &String)
        ensures
            r@ == self@.error_msg,
    {
        &self.error_info.error_msg
    }

    /// The live playback session, if one exists.
    pub fn playback(&self) -> (s: Option<&PlaybackSession>)
        ensures
            match s {
                Option::Some(session) => self@.session == Option::Some(session@),
                Option::None => self@.session is None,
            },
    {
        self.player.session()
    }

    /// The per-feed progress of the running refresh.
    pub fn refresh_progress(&self) -> (p: &RefreshProgress)
        ensures
            p@ == self@.progress,
    {
        &self.progress
    }
}

/// One pending status per subscribed feed.
pub open spec fn spec_all_pending(n: int) -> Seq<RefreshStatus> {
    Seq::new(n as nat, |i: int| RefreshStatus::Pending)
}

/// The source URLs of the subscribed podcasts, in order.
pub open spec fn spec_feed_urls(s: Seq<PodcastModel>) -> Seq<Seq<char>> {
    Seq::new(s.len(), |i: int| s[i].source_url)
}

/// Space flips the session between paused and playing and tells the
/// output device; with no session it is a no-op.
pub open spec fn spec_toggle_pause(m: AppModel) -> (AppModel, CommandModel) {
    match m.session {
        Option::None => (m, CommandModel::Idle),
        Option::Some(s) => (
            (AppModel {
                session: Option::Some(PlaybackSessionModel { paused: !s.paused, ..s }),
                ..m
            }),
            CommandModel::SetPaused { paused: !s.paused },
        ),
    }
}

/// What a key means at the root podcast list: `q` quits, `a` opens the
/// add-feed form with a cleared buffer, `u` starts a refresh of every
/// feed and shows its progress, space toggles playback, `j`/`k` move the
/// podcast selection (resetting the episode cursor), `i` opens the
/// podcast info popup and `Enter` the episode list — both only when a
/// podcast is selected: without a selection the push is refused and the
/// stack stays as it is.
pub open spec fn spec_key_root(m: AppModel, key: Key) -> (AppModel, CommandModel) {
    match key {
        Key::Char(c) => {
            if c == 'q' {
                ((AppModel { running: false, ..m }), CommandModel::Idle)
            } else if c == 'a' {
                (
                    (AppModel {
                        add_url: Seq::empty(),
                        nav: m.nav.push(NavFrame::AddPodcast),
                        ..m
                    }),
                    CommandModel::Idle,
                )
            } else if c == 'u' {
                (
                    (AppModel {
                        progress: spec_all_pending(m.podcasts.len() as int),
                        nav: m.nav.push(NavFrame::UpdateProgress),
                        ..m
                    }),
                    CommandModel::StartRefresh { urls: spec_feed_urls(m.podcasts) },
                )
            } else if c == ' ' {
                spec_toggle_pause(m)
            } else if c == 'j' {
                (
                    (AppModel {
                        podcast_selected: spec_normalize_int(
                            spec_next_selection(m.podcast_selected),
                            m.podcasts.len() as int,
                        ),
                        episode_selected: Option::Some(0usize),
                        ..m
                    }),
                    CommandModel::Idle,
                )
            } else if c == 'k' {
                (
                    (AppModel {
                        podcast_selected: spec_normalize_int(
                            spec_prev_selection(m.podcast_selected),
                            m.podcasts.len() as int,
                        ),
                        episode_selected: Option::Some(0usize),
                        ..m
                    }),
                    CommandModel::Idle,
                )
            } else if c == 'i' {
                match spec_normalize_int(m.podcast_selected, m.podcasts.len() as int) {
                    Option::None => (
                        (AppModel { podcast_selected: Option::None, ..m }),
                        CommandModel::Idle,
                    ),
                    Option::Some(i) => (
                        (AppModel {
                            podcast_selected: Option::Some(i),
                            podcast_scroll: 0u16,
                            nav: m.nav.push(NavFrame::PodcastInfo { podcast: i }),
                            ..m
                        }),
                        CommandModel::Idle,
                    ),
                }
            } else {
                (m, CommandModel::Idle)
            }
        },
        Key::Enter => {
            match spec_normalize_int(m.podcast_selected, m.podcasts.len() as int) {
                Option::None => (
                    (AppModel { podcast_selected: Option::None, ..m }),
                    CommandModel::Idle,
                ),
                Option::Some(i) => (
                    (AppModel {
                        podcast_selected: Option::Some(i),
                        nav: m.nav.push(NavFrame::EpisodeList { podcast: i }),
                        ..m
                    }),
                    CommandModel::Idle,
                ),
            }
        },
        Key::Escape => (m, CommandModel::Idle),
    }
}

/// What a key means in the episode list of podcast `p`: `Escape` goes
/// back, `q` quits, space toggles playback, `j`/`k` move the episode
/// selection, `i` opens the episode info popup when an episode is
/// selected, and `Enter` asks for playback of the selected episode — a
/// download first when its audio is not yet cached, an error popup when
/// its format is unsupported.
pub open spec fn spec_key_episode_list(m: AppModel, p: usize, key: Key) -> (
    AppModel,
    CommandModel,
) {
    match key {
        Key::Escape => ((AppModel { nav: spec_pop(m.nav), ..m }), CommandModel::Idle),
        Key::Char(c) => {
            if c == 'q' {
                ((AppModel { running: false, ..m }), CommandModel::Idle)
            } else if c == ' ' {
                spec_toggle_pause(m)
            } else if (c == 'j' || c == 'k') && p < m.podcasts.len() {
                let moved = if c == 'j' {
                    spec_next_selection(m.episode_selected)
                } else {
                    spec_prev_selection(m.episode_selected)
                };
                (
                    (AppModel {
                        episode_selected: spec_normalize_int(
                            moved,
                            m.podcasts[p as int].episodes.len() as int,
                        ),
                        ..m
                    }),
                    CommandModel::Idle,
                )
            } else if c == 'i' && p < m.podcasts.len() {
                match spec_normalize_int(
                    m.episode_selected,
                    m.podcasts[p as int].episodes.len() as int,
                ) {
                    Option::None => (
                        (AppModel { episode_selected: Option::None, ..m }),
                        CommandModel::Idle,
                    ),
                    Option::Some(e) => (
                        (AppModel {
                            episode_selected: Option::Some(e),
                            episode_scroll: 0u16,
                            nav: m.nav.push(NavFrame::EpisodeInfo { podcast: p, episode: e }),
                            ..m
                        }),
                        CommandModel::Idle,
                    ),
                }
            } else {
                (m, CommandModel::Idle)
            }
        },
        Key::Enter => {
            if p < m.podcasts.len() {
                let pod = m.podcasts[p as int];
                match spec_normalize_int(m.episode_selected, pod.episodes.len() as int) {
                    Option::None => (
                        (AppModel { episode_selected: Option::None, ..m }),
                        CommandModel::Idle,
                    ),
                    Option::Some(e) => {
                        let ep = pod.episodes[e as int];
                        match spec_audio_file_name(pod.title, ep) {
                            Result::Err(err) => (
                                (AppModel {
                                    episode_selected: Option::Some(e),
                                    error_msg: err.spec_message(),
                                    nav: m.nav.push(NavFrame::ErrorInfo),
                                    ..m
                                }),
                                CommandModel::Idle,
                            ),
                            Result::Ok(name) => (
                                (AppModel { episode_selected: Option::Some(e), ..m }),
                                CommandModel::PreparePlayback {
                                    title: ep.title,
                                    file_name: name,
                                    audio_url: ep.audio_url,
                                    download: !spec_cached(m.cache, name),
                                },
                            ),
                        }
                    },
                }
            } else {
                (m, CommandModel::Idle)
            }
        },
    }
}

/// What a key means in the podcast info popup: `Escape` goes back,
/// `j`/`k` scroll.
pub open spec fn spec_key_podcast_info(m: AppModel, key: Key) -> (AppModel, CommandModel) {
    match key {
        Key::Escape => ((AppModel { nav: spec_pop(m.nav), ..m }), CommandModel::Idle),
        Key::Char(c) => {
            if c == 'j' {
                (
                    (AppModel { podcast_scroll: spec_scroll_down(m.podcast_scroll), ..m }),
                    CommandModel::Idle,
                )
            } else if c == 'k' {
                (
                    (AppModel { podcast_scroll: spec_scroll_up(m.podcast_scroll), ..m }),
                    CommandModel::Idle,
                )
            } else {
                (m, CommandModel::Idle)
            }
        },
        Key::Enter => (m, CommandModel::Idle),
    }
}

/// What a key means in the episode info popup: `Escape` goes back,
/// `j`/`k` scroll.
pub open spec fn spec_key_episode_info(m: AppModel, key: Key) -> (AppModel, CommandModel) {
    match key {
        Key::Escape => ((AppModel { nav: spec_pop(m.nav), ..m }), CommandModel::Idle),
        Key::Char(c) => {
            if c == 'j' {
                (
                    (AppModel { episode_scroll: spec_scroll_down(m.episode_scroll), ..m }),
                    CommandModel::Idle,
                )
            } else if c == 'k' {
                (
                    (AppModel { episode_scroll: spec_scroll_up(m.episode_scroll), ..m }),
                    CommandModel::Idle,
                )
            } else {
                (m, CommandModel::Idle)
            }
        },
        Key::Enter => (m, CommandModel::Idle),
    }
}

/// What a key means in the add-feed form: `Escape` backs out, `p` asks
/// for the clipboard, `Enter` submits the buffer's URL — a URL already
/// subscribed is refused on the spot with an error popup, any other goes
/// out as a fetch.
pub open spec fn spec_key_add_podcast(m: AppModel, key: Key) -> (AppModel, CommandModel) {
    match key {
        Key::Escape => ((AppModel { nav: spec_pop(m.nav), ..m }), CommandModel::Idle),
        Key::Char(c) => {
            if c == 'p' {
                (m, CommandModel::ReadClipboard)
            } else {
                (m, CommandModel::Idle)
            }
        },
        Key::Enter => {
            if has_source_url(m.podcasts, m.add_url) {
                (
                    (AppModel {
                        error_msg: SyncError::DuplicateFeed.spec_message(),
                        nav: m.nav.push(NavFrame::ErrorInfo),
                        ..m
                    }),
                    CommandModel::Idle,
                )
            } else {
                (m, CommandModel::FetchNewFeed { url: m.add_url })
            }
        },
    }
}

/// What a key means in the refresh-progress and error popups: `Escape`
/// goes back, everything else does nothing.
pub open spec fn spec_key_plain_popup(m: AppModel, key: Key) -> (AppModel, CommandModel) {
    match key {
        Key::Escape => ((AppModel { nav: spec_pop(m.nav), ..m }), CommandModel::Idle),
        Key::Char(_) => (m, CommandModel::Idle),
        Key::Enter => (m, CommandModel::Idle),
    }
}

/// The whole key-driven state machine: the key's meaning is scoped to
/// the active frame alone, and an empty stack means the root podcast
/// list.
pub open spec fn spec_handle_key(m: AppModel, key: Key) -> (AppModel, CommandModel) {
    match spec_top(m.nav) {
        Option::None => spec_key_root(m, key),
        Option::Some(frame) => match frame {
            NavFrame::PodcastInfo { .. } => spec_key_podcast_info(m, key),
            NavFrame::AddPodcast => spec_key_add_podcast(m, key),
            NavFrame::EpisodeList { podcast } => spec_key_episode_list(m, podcast, key),
            NavFrame::EpisodeInfo { .. } => spec_key_episode_info(m, key),
            NavFrame::UpdateProgress => spec_key_plain_popup(m, key),
            NavFrame::ErrorInfo => spec_key_plain_popup(m, key),
        },
    }
}

/// Opening the episode list needs a selected podcast: with nothing
/// subscribed there is nothing to select, so `Enter` at the root is
/// refused and the navigation stack — in particular its depth — stays
/// exactly as it was.
pub proof fn lemma_enter_refused_without_selection(m: AppModel)
    requires
        m.podcasts.len() == 0,
        spec_top(m.nav) is None,
    ensures
        spec_handle_key(m, Key::Enter).0.nav == m.nav,
        spec_handle_key(m, Key::Enter).0.nav.len() == m.nav.len(),
        spec_handle_key(m, Key::Enter).1 == CommandModel::Idle,
{
}

impl App {
    /// Shows an error to the user: sets the popup's message and makes
    /// the error popup the active frame.
    fn show_error(&mut self, message: String)
        ensures
            final(self)@ == (AppModel {
                error_msg: message@,
                nav: old(self)@.nav.push(NavFrame::ErrorInfo),
                ..old(self)@
            }),
    {
        self.error_info.error_msg = message;
        self.nav.push(NavFrame::ErrorInfo);
    }

    fn toggle_pause(&mut self) -> (cmd: Command)
        ensures
            final(self)@ == spec_toggle_pause(old(self)@).0,
            cmd@ == spec_toggle_pause(old(self)@).1,
    {
        match self.player.toggle_pause() {
            Option::None => Command::Idle,
            Option::Some(paused) => Command::SetPaused { paused },
        }
    }

    fn key_root(&mut self, key: Key) -> (cmd: Command)
        ensures
            final(self)@ == spec_key_root(old(self)@, key).0,
            cmd@ == spec_key_root(old(self)@, key).1,
    {
        match key {
            Key::Char(c) => {
                if c == 'q' {
                    self.running = false;
                    Command::Idle
                } else if c == 'a' {
                    self.add_podcast.url = String::new();
                    self.nav.push(NavFrame::AddPodcast);
                    Command::Idle
                } else if c == 'u' {
                    let n = self.podcasts.len();
                    self.progress = RefreshProgress::new(n);
                    proof {
                        assert(self.progress@ =~= spec_all_pending(n as int));
                    }
                    self.nav.push(NavFrame::UpdateProgress);
                    let mut urls: Vec<String> = Vec::new();
                    let mut i: usize = 0;
                    #[verifier::loop_isolation(false)]
                    while i < n
                        invariant
                            i <= n,
                            urls@.len() == i,
                            forall|k: int|
                                0 <= k < i ==> urls@[k]@ == self.podcasts@[k].source_url,
                        decreases n - i,
                    {
                        urls.push(self.podcasts.get(i).source_url.clone());
                        i = i + 1;
                    }
                    let cmd = Command::StartRefresh { urls };
                    proof {
                        assert(cmd@ matches CommandModel::StartRefresh { urls: u } && u
                            =~= spec_feed_urls(self.podcasts@));
                    }
                    cmd
                } else if c == ' ' {
                    self.toggle_pause()
                } else if c == 'j' {
                    let n = self.podcasts.len();
                    self.podcast_list.next();
                    self.podcast_list.normalize(n);
                    self.episode_list.first();
                    Command::Idle
                } else if c == 'k' {
                    let n = self.podcasts.len();
                    self.podcast_list.prev();
                    self.podcast_list.normalize(n);
                    self.episode_list.first();
                    Command::Idle
                } else if c == 'i' {
                    let n = self.podcasts.len();
                    self.podcast_list.normalize(n);
                    match self.podcast_list.selected() {
                        Option::None => Command::Idle,
                        Option::Some(i) => {
                            self.podcast_info.first();
                            self.nav.push(NavFrame::PodcastInfo { podcast: i });
                            Command::Idle
                        },
                    }
                } else {
                    Command::Idle
                }
            },
            Key::Enter => {
                let n = self.podcasts.len();
                self.podcast_list.normalize(n);
                match self.podcast_list.selected() {
                    Option::None => Command::Idle,
                    Option::Some(i) => {
                        self.nav.push(NavFrame::EpisodeList { podcast: i });
                        Command::Idle
                    },
                }
            },
            Key::Escape => Command::Idle,
        }
    }

    fn key_episode_list(&mut self, p: usize, key: Key) -> (cmd: Command)
        ensures
            final(self)@ == spec_key_episode_list(old(self)@, p, key).0,
            cmd@ == spec_key_episode_list(old(self)@, p, key).1,
    {
        match key {
            Key::Escape => {
                self.nav.pop();
                Command::Idle
            },
            Key::Char(c) => {
                if c == 'q' {
                    self.running = false;
                    Command::Idle
                } else if c == ' ' {
                    self.toggle_pause()
                } else if (c == 'j' || c == 'k') && p < self.podcasts.len() {
                    let ep_len = self.podcasts.get(p).episodes.len();
                    if c == 'j' {
                        self.episode_list.next();
                    } else {
                        self.episode_list.prev();
                    }
                    self.episode_list.normalize(ep_len);
                    Command::Idle
                } else if c == 'i' && p < self.podcasts.len() {
                    let ep_len = self.podcasts.get(p).episodes.len();
                    self.episode_list.normalize(ep_len);
                    match self.episode_list.selected() {
                        Option::None => Command::Idle,
                        Option::Some(e) => {
                            self.episode_info.first();
                            self.nav.push(NavFrame::EpisodeInfo { podcast: p, episode: e });
                            Command::Idle
                        },
                    }
                } else {
                    Command::Idle
                }
            },
            Key::Enter => {
                if p < self.podcasts.len() {
                    let ep_len = self.podcasts.get(p).episodes.len();
                    self.episode_list.normalize(ep_len);
                    match self.episode_list.selected() {
                        Option::None => Command::Idle,
                        Option::Some(e) => {
                            let pod = self.podcasts.get(p);
                            proof {
                                assert(pod@.episodes.len() == pod.episodes@.len());
                                assert(e < pod.episodes@.len());
                            }
                            let ep = &pod.episodes[e];
                            match audio_file_name(pod.title.as_str(), ep) {
                                Result::Err(err) => {
                                    let msg = err.message();
                                    self.show_error(msg);
                                    Command::Idle
                                },
                                Result::Ok(name) => {
                                    let download = needs_download(&self.cache, name.as_str());
                                    Command::PreparePlayback {
                                        title: ep.title.clone(),
                                        file_name: name,
                                        audio_url: ep.audio_url.clone(),
                                        download,
                                    }
                                },
                            }
                        },
                    }
                } else {
                    Command::Idle
                }
            },
        }
    }

    fn key_podcast_info(&mut self, key: Key) -> (cmd: Command)
        ensures
            final(self)@ == spec_key_podcast_info(old(self)@, key).0,
            cmd@ == spec_key_podcast_info(old(self)@, key).1,
    {
        match key {
            Key::Escape => {
                self.nav.pop();
                Command::Idle
            },
            Key::Char(c) => {
                if c == 'j' {
                    self.podcast_info.next();
                } else if c == 'k' {
                    self.podcast_info.prev();
                }
                Command::Idle
            },
            Key::Enter => Command::Idle,
        }
    }

    fn key_episode_info(&mut self, key: Key) -> (cmd: Command)
        ensures
            final(self)@ == spec_key_episode_info(old(self)@, key).0,
            cmd@ == spec_key_episode_info(old(self)@, key).1,
    {
        match key {
            Key::Escape => {
                self.nav.pop();
                Command::Idle
            },
            Key::Char(c) => {
                if c == 'j' {
                    self.episode_info.next();
                } else if c == 'k' {
                    self.episode_info.prev();
                }
                Command::Idle
            },
            Key::Enter => Command::Idle,
        }
    }

    fn key_add_podcast(&mut self, key: Key) -> (cmd: Command)
        ensures
            final(self)@ == spec_key_add_podcast(old(self)@, key).0,
            cmd@ == spec_key_add_podcast(old(self)@, key).1,
    {
        match key {
            Key::Escape => {
                self.nav.pop();
                Command::Idle
            },
            Key::Char(c) => {
                if c == 'p' {
                    Command::ReadClipboard
                } else {
                    Command::Idle
                }
            },
            Key::Enter => {
                if self.podcasts.contains_url(self.add_podcast.url.as_str()) {
                    let msg = SyncError::DuplicateFeed.message();
                    self.show_error(msg);
                    Command::Idle
                } else {
                    Command::FetchNewFeed { url: self.add_podcast.url.clone() }
                }
            },
        }
    }

    fn key_plain_popup(&mut self, key: Key) -> (cmd: Command)
        ensures
            final(self)@ == spec_key_plain_popup(old(self)@, key).0,
            cmd@ == spec_key_plain_popup(old(self)@, key).1,
    {
        match key {
            Key::Escape => {
                self.nav.pop();
                Command::Idle
            },
            Key::Char(_) => Command::Idle,
            Key::Enter => Command::Idle,
        }
    }

    /// Reacts to one key press. What the key does is decided by the
    /// active frame alone, exactly as `spec_handle_key` lays it out; the
    /// returned command names the outside work the event loop owes.
    pub fn handle_key(&mut self, key: Key) -> (cmd: Command)
        requires
            old(self).wf(),
        ensures
            final(self).wf(),
            final(self)@ == spec_handle_key(old(self)@, key).0,
            cmd@ == spec_handle_key(old(self)@, key).1,
    {
        match self.nav.top() {
            Option::None => self.key_root(key),
            Option::Some(NavFrame::PodcastInfo { .. }) => self.key_podcast_info(key),
            Option::Some(NavFrame::AddPodcast) => self.key_add_podcast(key),
            Option::Some(NavFrame::EpisodeList { podcast }) => self.key_episode_list(podcast, key),
            Option::Some(NavFrame::EpisodeInfo { .. }) => self.key_episode_info(key),
            Option::Some(NavFrame::UpdateProgress) => self.key_plain_popup(key),
            Option::Some(NavFrame::ErrorInfo) => self.key_plain_popup(key),
        }
    }
}

/// What the clipboard answer does: the text overwrites the URL buffer; a
/// failure surfaces as an error popup instead of crashing.
pub open spec fn spec_on_clipboard(m: AppModel, pasted: Result<String, String>) -> AppModel {
    match pasted {
        Result::Ok(text) => AppModel { add_url: text@, ..m },
        Result::Err(msg) => AppModel {
            error_msg: "could not read clipboard: "@ + msg@,
            nav: m.nav.push(NavFrame::ErrorInfo),
            ..m
        },
    }
}

/// What the add fetch's outcome does: a duplicate URL, a failed fetch or
/// an unusable feed surfaces as an error popup; a parsed podcast goes
/// out to be persisted before anything in memory changes.
pub open spec fn spec_on_add_fetched(
    m: AppModel,
    url: Seq<char>,
    fetched: Result<String, String>,
) -> (AppModel, CommandModel) {
    match spec_add_prepare(m.podcasts, url, fetched) {
        Result::Err(e) => (
            (AppModel {
                error_msg: e.spec_message(),
                nav: m.nav.push(NavFrame::ErrorInfo),
                ..m
            }),
            CommandModel::Idle,
        ),
        Result::Ok(p) => (m, CommandModel::PersistNewFeed { podcast: p }),
    }
}

/// What the add persist's outcome does: a store failure surfaces as an
/// error popup with the collection untouched; on success the podcast is
/// committed to the collection (a duplicate is still refused), the
/// add-feed form is closed, and the cursor fits the grown list.
pub open spec fn spec_on_add_persisted(
    m: AppModel,
    podcast: PodcastModel,
    persisted: Result<(), String>,
) -> AppModel {
    match persisted {
        Result::Err(msg) => AppModel {
            error_msg: SyncError::Persist(msg).spec_message(),
            nav: m.nav.push(NavFrame::ErrorInfo),
            ..m
        },
        Result::Ok(_) => {
            if has_source_url(m.podcasts, podcast.source_url) {
                AppModel {
                    error_msg: SyncError::DuplicateFeed.spec_message(),
                    nav: m.nav.push(NavFrame::ErrorInfo),
                    ..m
                }
            } else {
                AppModel {
                    podcasts: m.podcasts.push(podcast),
                    nav: if spec_top(m.nav) == Option::Some(NavFrame::AddPodcast) {
                        spec_pop(m.nav)
                    } else {
                        m.nav
                    },
                    podcast_selected: spec_normalize_int(
                        m.podcast_selected,
                        m.podcasts.len() as int + 1,
                    ),
                    ..m
                }
            }
        },
    }
}

/// What one feed's refresh fetch does: a failed fetch or parse marks
/// that one feed failed and leaves its record untouched; a parsed feed
/// replaces the record wholesale and goes out to be persisted. The other
/// feeds' records and statuses are never disturbed.
pub open spec fn spec_on_refresh_fetched(
    m: AppModel,
    index: usize,
    fetched: Result<String, String>,
) -> (AppModel, CommandModel) {
    if index < m.podcasts.len() && index < m.progress.len() {
        match spec_refresh_step(m.podcasts[index as int], fetched).1 {
            Result::Err(_) => (
                (AppModel {
                    progress: m.progress.update(index as int, RefreshStatus::Failed),
                    ..m
                }),
                CommandModel::Idle,
            ),
            Result::Ok(_) => (
                (AppModel {
                    podcasts: m.podcasts.update(
                        index as int,
                        spec_refresh_step(m.podcasts[index as int], fetched).0,
                    ),
                    ..m
                }),
                CommandModel::PersistFeed { index },
            ),
        }
    } else {
        (m, CommandModel::Idle)
    }
}

/// What one feed's refresh persist does: the feed moves from pending to
/// succeeded or failed, independently of every other feed.
pub open spec fn spec_on_refresh_persisted(
    m: AppModel,
    index: usize,
    persisted: Result<(), String>,
) -> AppModel {
    if index < m.progress.len() {
        AppModel {
            progress: m.progress.update(
                index as int,
                if persisted is Ok {
                    RefreshStatus::Succeeded
                } else {
                    RefreshStatus::Failed
                },
            ),
            ..m
        }
    } else {
        m
    }
}

impl App {
    /// Takes the clipboard answer for the add-feed form.
    pub fn on_clipboard(&mut self, pasted: Result<String, String>) -> (cmd: Command)
        requires
            old(self).wf(),
        ensures
            final(self).wf(),
            final(self)@ == spec_on_clipboard(old(self)@, pasted),
            cmd@ == CommandModel::Idle,
    {
        match pasted {
            Result::Ok(text) => {
                self.add_podcast.url = text;
            },
            Result::Err(msg) => {
                let mut s = "could not read clipboard: ".to_owned();
                s.append(msg.as_str());
                self.show_error(s);
            },
        }
        Command::Idle
    }

    /// Takes the outcome of the one fetch that adding a feed issues.
    pub fn on_add_fetched(&mut self, url: &str, fetched: Result<String, String>) -> (cmd: Command)
        requires
            old(self).wf(),
        ensures
            final(self).wf(),
            final(self)@ == spec_on_add_fetched(old(self)@, url@, fetched).0,
            cmd@ == spec_on_add_fetched(old(self)@, url@, fetched).1,
    {
        match add_prepare(&self.podcasts, url, fetched) {
            Result::Err(e) => {
                let msg = e.message();
                self.show_error(msg);
                Command::Idle
            },
            Result::Ok(p) => Command::PersistNewFeed { podcast: p },
        }
    }

    /// Takes the outcome of persisting a newly added podcast.
    pub fn on_add_persisted(&mut self, podcast: Podcast, persisted: Result<(), String>) -> (cmd:
        Command)
        requires
            old(self).wf(),
        ensures
            final(self).wf(),
            final(self)@ == spec_on_add_persisted(old(self)@, podcast@, persisted),
            cmd@ == CommandModel::Idle,
    {
        match persisted {
            Result::Err(msg) => {
                let e = SyncError::Persist(msg);
                let text = e.message();
                self.show_error(text);
            },
            Result::Ok(_) => {
                match add_commit(&mut self.podcasts, podcast) {
                    Result::Err(e) => {
                        let text = e.message();
                        self.show_error(text);
                    },
                    Result::Ok(_) => {
                        match self.nav.top() {
                            Option::Some(NavFrame::AddPodcast) => {
                                self.nav.pop();
                            },
                            _ => {},
                        }
                        let n = self.podcasts.len();
                        self.podcast_list.normalize(n);
                    },
                }
            },
        }
        Command::Idle
    }

    /// Takes the outcome of one feed's fetch during a refresh.
    pub fn on_refresh_fetched(&mut self, index: usize, fetched: Result<String, String>) -> (cmd:
        Command)
        requires
            old(self).wf(),
        ensures
            final(self).wf(),
            final(self)@ == spec_on_refresh_fetched(old(self)@, index, fetched).0,
            cmd@ == spec_on_refresh_fetched(old(self)@, index, fetched).1,
    {
        if index < self.podcasts.len() && index < self.progress.len() {
            match fetched {
                Result::Err(_) => {
                    self.progress.mark(index, false);
                    Command::Idle
                },
                Result::Ok(text) => {
                    let url = self.podcasts.get(index).source_url.clone();
                    match crate::rss::parse_feed(url.as_str(), text.as_str()) {
                        Result::Err(_) => {
                            self.progress.mark(index, false);
                            Command::Idle
                        },
                        Result::Ok(p) => {
                            proof {
                                crate::rss::lemma_parse_feed_url(url@, text@);
                            }
                            self.podcasts.replace(index, p);
                            Command::PersistFeed { index }
                        },
                    }
                },
            }
        } else {
            Command::Idle
        }
    }

    /// Takes the outcome of persisting one refreshed feed.
    pub fn on_refresh_persisted(&mut self, index: usize, persisted: Result<(), String>) -> (cmd:
        Command)
        requires
            old(self).wf(),
        ensures
            final(self).wf(),
            final(self)@ == spec_on_refresh_persisted(old(self)@, index, persisted),
            cmd@ == CommandModel::Idle,
    {
        if index < self.progress.len() {
            let ok = match persisted {
                Result::Ok(_) => true,
                Result::Err(_) => false,
            };
            self.progress.mark(index, ok);
        }
        Command::Idle
    }

    /// Records that an episode's audio finished downloading: from now on
    /// playing it is a cache hit and triggers no further download.
    pub fn on_audio_downloaded(&mut self, file_name: String) -> (cmd: Command)
        requires
            old(self).wf(),
        ensures
            final(self).wf(),
            final(self)@ == (AppModel {
                cache: spec_record(old(self)@.cache, file_name@),
                ..old(self)@
            }),
            cmd@ == CommandModel::Idle,
    {
        self.cache.record(file_name);
        Command::Idle
    }

    /// Takes a started playback into the session slot. Whatever session
    /// was active before is gone: exactly one session is active after
    /// the call.
    pub fn on_playback_started(&mut self, title: String, total_duration_secs: u64) -> (cmd:
        Command)
        requires
            old(self).wf(),
        ensures
            final(self).wf(),
            final(self)@ == (AppModel {
                session: Option::Some(
                    PlaybackSessionModel { title: title@, total_duration_secs, paused: false },
                ),
                ..old(self)@
            }),
            cmd@ == CommandModel::Idle,
    {
        let _prev = self.player.start(
            PlaybackSession { title, total_duration_secs, paused: false },
        );
        Command::Idle
    }

    /// Surfaces a failed download, open or decode as an error popup.
    pub fn on_playback_failed(&mut self, error: PlaybackError) -> (cmd: Command)
        requires
            old(self).wf(),
        ensures
            final(self).wf(),
            final(self)@ == (AppModel {
                error_msg: error.spec_message(),
                nav: old(self)@.nav.push(NavFrame::ErrorInfo),
                ..old(self)@
            }),
            cmd@ == CommandModel::Idle,
    {
        let msg = error.message();
        self.show_error(msg);
        Command::Idle
    }
}

} // verus!
