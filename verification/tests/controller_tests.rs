use teapod::controller::{App, Command, Key};
use teapod::nav::NavFrame;
use teapod::podcast::{Episode, Podcast};
use teapod::sync::RefreshStatus;

const FEED_URL: &str = "http://example.com/feed.xml";

fn feed_xml(title: &str) -> String {
    format!(
        "<rss><channel><title>{}</title><item>\
         <title>Pilot</title>\
         <pubDate>Mon, 01 Jan 2024 00:00:00 +0000</pubDate>\
         <enclosure url=\"http://x/pilot.mp3\" type=\"audio/mpeg\"/>\
         </item></channel></rss>",
        title
    )
}

/// Drives the whole add flow as the event loop would.
fn subscribe(app: &mut App, url: &str, xml: &str) {
    app.handle_key(Key::Char('a'));
    app.on_clipboard(Ok(url.to_string()));
    let cmd = app.handle_key(Key::Enter);
    let fetch_url = match cmd {
        Command::FetchNewFeed { url } => url,
        _ => panic!("expected a fetch command"),
    };
    assert_eq!(fetch_url, url);
    let cmd = app.on_add_fetched(&fetch_url, Ok(xml.to_string()));
    let podcast = match cmd {
        Command::PersistNewFeed { podcast } => podcast,
        _ => panic!("expected a persist command"),
    };
    app.on_add_persisted(podcast, Ok(()));
}

#[test]
fn q_stops_the_loop() {
    let mut app = App::new();
    assert!(app.is_running());
    app.handle_key(Key::Char('q'));
    assert!(!app.is_running());
}

#[test]
fn a_opens_the_add_feed_form_with_a_clear_buffer() {
    let mut app = App::new();
    app.on_clipboard(Ok("leftover".to_string()));
    app.handle_key(Key::Char('a'));
    assert_eq!(app.nav_top(), Some(NavFrame::AddPodcast));
    assert_eq!(app.add_url(), "");
}

#[test]
fn enter_without_a_podcast_is_refused() {
    let mut app = App::new();
    let depth = app.nav_depth();
    app.handle_key(Key::Enter);
    assert_eq!(app.nav_depth(), depth);
    assert_eq!(app.nav_top(), None);
}

#[test]
fn info_without_a_podcast_is_refused() {
    let mut app = App::new();
    app.handle_key(Key::Char('i'));
    assert_eq!(app.nav_depth(), 0);
}

#[test]
fn escape_at_the_root_is_a_no_op() {
    let mut app = App::new();
    app.handle_key(Key::Escape);
    assert_eq!(app.nav_depth(), 0);
    assert!(app.is_running());
}

#[test]
fn adding_a_feed_grows_the_collection_and_closes_the_form() {
    let mut app = App::new();
    subscribe(&mut app, FEED_URL, &feed_xml("Changelog"));
    assert_eq!(app.nav_top(), None);
    assert_eq!(app.podcasts().len(), 1);
    assert_eq!(app.podcasts().get(0).title, "Changelog");
    assert_eq!(app.podcast_selected(), Some(0));
}

#[test]
fn adding_the_same_url_twice_shows_a_duplicate_error() {
    let mut app = App::new();
    subscribe(&mut app, FEED_URL, &feed_xml("Changelog"));
    app.handle_key(Key::Char('a'));
    app.on_clipboard(Ok(FEED_URL.to_string()));
    let cmd = app.handle_key(Key::Enter);
    assert!(matches!(cmd, Command::Idle));
    assert_eq!(app.nav_top(), Some(NavFrame::ErrorInfo));
    assert_eq!(app.error_message(), "feed is already subscribed");
    assert_eq!(app.podcasts().len(), 1);
}

#[test]
fn network_failure_during_add_shows_an_error_and_changes_nothing() {
    let mut app = App::new();
    app.handle_key(Key::Char('a'));
    app.on_clipboard(Ok(FEED_URL.to_string()));
    app.handle_key(Key::Enter);
    app.on_add_fetched(FEED_URL, Err("timed out".to_string()));
    assert_eq!(app.nav_top(), Some(NavFrame::ErrorInfo));
    assert_eq!(app.error_message(), "network error: timed out");
    assert_eq!(app.podcasts().len(), 0);
}

#[test]
fn persist_failure_during_add_leaves_the_collection_unchanged() {
    let mut app = App::new();
    app.handle_key(Key::Char('a'));
    app.on_clipboard(Ok(FEED_URL.to_string()));
    app.handle_key(Key::Enter);
    let cmd = app.on_add_fetched(FEED_URL, Ok(feed_xml("Changelog")));
    let podcast = match cmd {
        Command::PersistNewFeed { podcast } => podcast,
        _ => panic!("expected a persist command"),
    };
    app.on_add_persisted(podcast, Err("disk full".to_string()));
    assert_eq!(app.podcasts().len(), 0);
    assert_eq!(app.error_message(), "could not save feed: disk full");
}

#[test]
fn clipboard_failure_surfaces_as_an_error_popup() {
    let mut app = App::new();
    app.handle_key(Key::Char('a'));
    app.on_clipboard(Err("no display".to_string()));
    assert_eq!(app.nav_top(), Some(NavFrame::ErrorInfo));
    assert_eq!(app.error_message(), "could not read clipboard: no display");
}

#[test]
fn refresh_updates_survivors_and_reports_the_failure() {
    let mut app = App::new();
    subscribe(&mut app, "http://a", &feed_xml("Old A"));
    subscribe(&mut app, "http://b", &feed_xml("Old B"));
    subscribe(&mut app, "http://c", &feed_xml("Old C"));
    let cmd = app.handle_key(Key::Char('u'));
    let urls = match cmd {
        Command::StartRefresh { urls } => urls,
        _ => panic!("expected a refresh command"),
    };
    assert_eq!(urls, vec!["http://a", "http://b", "http://c"]);
    assert_eq!(app.nav_top(), Some(NavFrame::UpdateProgress));
    assert_eq!(app.refresh_progress().len(), 3);

    let cmd = app.on_refresh_fetched(0, Ok(feed_xml("New A")));
    assert!(matches!(cmd, Command::PersistFeed { index: 0 }));
    app.on_refresh_persisted(0, Ok(()));

    app.on_refresh_fetched(1, Err("timed out".to_string()));

    let cmd = app.on_refresh_fetched(2, Ok(feed_xml("New C")));
    assert!(matches!(cmd, Command::PersistFeed { index: 2 }));
    app.on_refresh_persisted(2, Ok(()));

    assert_eq!(app.podcasts().get(0).title, "New A");
    assert_eq!(app.podcasts().get(1).title, "Old B");
    assert_eq!(app.podcasts().get(2).title, "New C");
    assert_eq!(app.refresh_progress().get(0), RefreshStatus::Succeeded);
    assert_eq!(app.refresh_progress().get(1), RefreshStatus::Failed);
    assert_eq!(app.refresh_progress().get(2), RefreshStatus::Succeeded);
    assert!(app.refresh_progress().all_done());
}

#[test]
fn first_playback_downloads_second_does_not() {
    let mut app = App::new();
    subscribe(&mut app, FEED_URL, &feed_xml("Changelog"));
    app.handle_key(Key::Enter);
    assert_eq!(app.nav_top(), Some(NavFrame::EpisodeList { podcast: 0 }));

    let cmd = app.handle_key(Key::Enter);
    let (file_name, download) = match cmd {
        Command::PreparePlayback {
            file_name,
            download,
            title,
            audio_url,
        } => {
            assert_eq!(title, "Pilot");
            assert_eq!(audio_url, "http://x/pilot.mp3");
            (file_name, download)
        }
        _ => panic!("expected a playback command"),
    };
    assert_eq!(file_name, "Changelog/Pilot.mp3");
    assert!(download);
    app.on_audio_downloaded(file_name);
    app.on_playback_started("Pilot".to_string(), 1800);

    let cmd = app.handle_key(Key::Enter);
    match cmd {
        Command::PreparePlayback { download, .. } => assert!(!download),
        _ => panic!("expected a playback command"),
    }
}

#[test]
fn starting_playback_again_leaves_exactly_one_session() {
    let mut app = App::new();
    app.on_playback_started("One".to_string(), 60);
    app.on_playback_started("Two".to_string(), 90);
    let live = app.playback().unwrap();
    assert_eq!(live.title, "Two");
    assert_eq!(live.total_duration_secs, 90);
    assert!(!live.paused);
}

#[test]
fn space_toggles_pause_only_with_a_session() {
    let mut app = App::new();
    let cmd = app.handle_key(Key::Char(' '));
    assert!(matches!(cmd, Command::Idle));
    app.on_playback_started("One".to_string(), 60);
    let cmd = app.handle_key(Key::Char(' '));
    assert!(matches!(cmd, Command::SetPaused { paused: true }));
    assert!(app.playback().unwrap().paused);
    let cmd = app.handle_key(Key::Char(' '));
    assert!(matches!(cmd, Command::SetPaused { paused: false }));
}

#[test]
fn unsupported_audio_format_shows_an_error_instead_of_playing() {
    let mut app = App::new();
    let podcast = Podcast {
        title: "Show".to_string(),
        description: String::new(),
        source_url: "http://a".to_string(),
        episodes: vec![Episode {
            title: "Pilot".to_string(),
            description: String::new(),
            publish_date: "2024-01-01".to_string(),
            audio_url: "http://x/pilot.ogg".to_string(),
            audio_mime_type: "audio/ogg".to_string(),
        }],
    };
    assert!(app.load_podcast(podcast));
    app.handle_key(Key::Enter);
    let cmd = app.handle_key(Key::Enter);
    assert!(matches!(cmd, Command::Idle));
    assert_eq!(app.nav_top(), Some(NavFrame::ErrorInfo));
    assert_eq!(app.error_message(), "audio format not supported");
}

#[test]
fn playback_failure_surfaces_as_an_error_popup() {
    let mut app = App::new();
    app.on_playback_failed(teapod::player::PlaybackError::Decode(
        "bad frame header".to_string(),
    ));
    assert_eq!(app.nav_top(), Some(NavFrame::ErrorInfo));
    assert_eq!(app.error_message(), "could not play audio: bad frame header");
}

#[test]
fn navigation_scopes_keys_to_the_active_frame() {
    let mut app = App::new();
    subscribe(&mut app, FEED_URL, &feed_xml("Changelog"));

    app.handle_key(Key::Char('i'));
    assert_eq!(app.nav_top(), Some(NavFrame::PodcastInfo { podcast: 0 }));
    app.handle_key(Key::Char('j'));
    assert_eq!(app.podcast_scroll(), 1);
    app.handle_key(Key::Char('i'));
    assert_eq!(app.nav_top(), Some(NavFrame::PodcastInfo { podcast: 0 }));
    app.handle_key(Key::Escape);
    assert_eq!(app.nav_top(), None);

    app.handle_key(Key::Enter);
    app.handle_key(Key::Char('i'));
    assert_eq!(
        app.nav_top(),
        Some(NavFrame::EpisodeInfo {
            podcast: 0,
            episode: 0
        })
    );
    app.handle_key(Key::Escape);
    assert_eq!(app.nav_top(), Some(NavFrame::EpisodeList { podcast: 0 }));
    app.handle_key(Key::Escape);
    assert_eq!(app.nav_top(), None);
}

#[test]
fn selection_moves_and_stays_in_range() {
    let mut app = App::new();
    subscribe(&mut app, "http://a", &feed_xml("A"));
    subscribe(&mut app, "http://b", &feed_xml("B"));
    assert_eq!(app.podcast_selected(), Some(0));
    app.handle_key(Key::Char('j'));
    assert_eq!(app.podcast_selected(), Some(1));
    app.handle_key(Key::Char('j'));
    assert_eq!(app.podcast_selected(), Some(1));
    app.handle_key(Key::Char('k'));
    assert_eq!(app.podcast_selected(), Some(0));
    app.handle_key(Key::Char('k'));
    assert_eq!(app.podcast_selected(), Some(0));
}

#[test]
fn loading_persisted_podcasts_skips_duplicate_urls() {
    let mut app = App::new();
    let a = Podcast {
        title: "A".to_string(),
        description: String::new(),
        source_url: "http://a".to_string(),
        episodes: Vec::new(),
    };
    let a2 = Podcast {
        title: "A again".to_string(),
        description: String::new(),
        source_url: "http://a".to_string(),
        episodes: Vec::new(),
    };
    assert!(app.load_podcast(a));
    assert!(!app.load_podcast(a2));
    assert_eq!(app.podcasts().len(), 1);
}
