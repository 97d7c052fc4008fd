use teapod::player::{
    audio_file_name, format_audio_duration, needs_download, AudioCache, PlaybackError,
    PlaybackManager, PlaybackSession,
};
use teapod::podcast::Episode;

fn episode(title: &str, mime: &str) -> Episode {
    Episode {
        title: title.to_string(),
        description: String::new(),
        publish_date: "2024-01-01".to_string(),
        audio_url: "http://x/e.mp3".to_string(),
        audio_mime_type: mime.to_string(),
    }
}

#[test]
fn audio_file_name_is_title_under_podcast_dir() {
    let name = audio_file_name("My Show", &episode("Pilot", "audio/mpeg")).unwrap();
    assert_eq!(name, "My Show/Pilot.mp3");
}

#[test]
fn unsupported_mime_type_is_a_hard_error() {
    let r = audio_file_name("My Show", &episode("Pilot", "audio/ogg"));
    assert!(matches!(r, Err(PlaybackError::UnsupportedAudioFormat)));
}

#[test]
fn first_request_downloads_second_is_cache_hit() {
    let mut cache = AudioCache::new();
    assert!(needs_download(&cache, "Show/Pilot.mp3"));
    cache.record("Show/Pilot.mp3".to_string());
    assert!(!needs_download(&cache, "Show/Pilot.mp3"));
    assert!(needs_download(&cache, "Show/Other.mp3"));
}

#[test]
fn recording_twice_changes_nothing() {
    let mut cache = AudioCache::new();
    cache.record("a.mp3".to_string());
    cache.record("a.mp3".to_string());
    assert!(!needs_download(&cache, "a.mp3"));
}

#[test]
fn starting_playback_replaces_the_previous_session() {
    let mut m = PlaybackManager::new();
    assert!(m.session().is_none());
    let prev = m.start(PlaybackSession {
        title: "One".to_string(),
        total_duration_secs: 60,
        paused: false,
    });
    assert!(prev.is_none());
    let prev = m.start(PlaybackSession {
        title: "Two".to_string(),
        total_duration_secs: 90,
        paused: false,
    });
    let prev = prev.unwrap();
    assert_eq!(prev.title, "One");
    let live = m.session().unwrap();
    assert_eq!(live.title, "Two");
    assert_eq!(live.total_duration_secs, 90);
}

#[test]
fn toggle_pause_without_session_is_a_no_op() {
    let mut m = PlaybackManager::new();
    assert!(m.toggle_pause().is_none());
    assert!(m.session().is_none());
}

#[test]
fn toggle_pause_flips_back_and_forth() {
    let mut m = PlaybackManager::new();
    m.start(PlaybackSession {
        title: "One".to_string(),
        total_duration_secs: 60,
        paused: false,
    });
    assert_eq!(m.toggle_pause(), Some(true));
    assert!(m.session().unwrap().paused);
    assert_eq!(m.toggle_pause(), Some(false));
    assert!(!m.session().unwrap().paused);
}

#[test]
fn playback_error_messages() {
    assert_eq!(
        PlaybackError::UnsupportedAudioFormat.message(),
        "audio format not supported"
    );
    assert_eq!(
        PlaybackError::Network("timed out".to_string()).message(),
        "audio download failed: timed out"
    );
    assert_eq!(
        PlaybackError::Decode("bad mp3".to_string()).message(),
        "could not play audio: bad mp3"
    );
}

#[test]
fn durations_format_as_zero_padded_hms() {
    assert_eq!(format_audio_duration(0), "00:00:00");
    assert_eq!(format_audio_duration(59), "00:00:59");
    assert_eq!(format_audio_duration(60), "00:01:00");
    assert_eq!(format_audio_duration(3599), "00:59:59");
    assert_eq!(format_audio_duration(3661), "01:01:01");
    assert_eq!(format_audio_duration(7325), "02:02:05");
    assert_eq!(format_audio_duration(86399), "23:59:59");
    assert_eq!(format_audio_duration(360061), "100:01:01");
}
