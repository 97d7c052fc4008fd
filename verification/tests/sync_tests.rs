use teapod::podcast::{Episode, Podcast, PodcastCollection};
use teapod::sync::{
    add_commit, add_prepare, refresh_all_apply, RefreshProgress, RefreshStatus, SyncError,
};

fn podcast(title: &str, url: &str) -> Podcast {
    Podcast {
        title: title.to_string(),
        description: String::new(),
        source_url: url.to_string(),
        episodes: Vec::new(),
    }
}

fn feed_xml(title: &str) -> String {
    format!(
        "<rss><channel><title>{}</title><item>\
         <title>Ep</title>\
         <pubDate>Mon, 01 Jan 2024 00:00:00 +0000</pubDate>\
         <enclosure url=\"http://x/e.mp3\" type=\"audio/mpeg\"/>\
         </item></channel></rss>",
        title
    )
}

#[test]
fn adding_same_url_twice_fails_with_duplicate_feed() {
    let mut c = PodcastCollection::new();
    assert!(matches!(add_commit(&mut c, podcast("A", "http://a")), Ok(())));
    assert_eq!(c.len(), 1);
    let second = add_commit(&mut c, podcast("A again", "http://a"));
    assert!(matches!(second, Err(SyncError::DuplicateFeed)));
    assert_eq!(c.len(), 1);
    assert_eq!(c.get(0).title, "A");
}

#[test]
fn insert_refuses_duplicates_only() {
    let mut c = PodcastCollection::new();
    assert!(c.insert(podcast("A", "http://a")));
    assert!(c.insert(podcast("B", "http://b")));
    assert!(!c.insert(podcast("C", "http://a")));
    assert_eq!(c.len(), 2);
    assert!(c.contains_url("http://a"));
    assert!(c.contains_url("http://b"));
    assert!(!c.contains_url("http://c"));
}

#[test]
fn add_prepare_rejects_duplicates_before_anything_else() {
    let mut c = PodcastCollection::new();
    c.insert(podcast("A", "http://a"));
    let r = add_prepare(&c, "http://a", Ok(feed_xml("A")));
    assert!(matches!(r, Err(SyncError::DuplicateFeed)));
}

#[test]
fn add_prepare_surfaces_network_failure() {
    let c = PodcastCollection::new();
    let r = add_prepare(&c, "http://a", Err("connection refused".to_string()));
    match r {
        Err(SyncError::Network(msg)) => assert_eq!(msg, "connection refused"),
        other => panic!("expected a network error, got {:?}", other),
    }
}

#[test]
fn add_prepare_surfaces_parse_failure() {
    let c = PodcastCollection::new();
    let r = add_prepare(&c, "http://a", Ok("not a feed".to_string()));
    assert!(matches!(r, Err(SyncError::Parse(_))));
}

#[test]
fn add_prepare_returns_parsed_podcast() {
    let c = PodcastCollection::new();
    let p = add_prepare(&c, "http://a", Ok(feed_xml("Fresh"))).unwrap();
    assert_eq!(p.title, "Fresh");
    assert_eq!(p.source_url, "http://a");
    assert_eq!(p.episodes.len(), 1);
}

#[test]
fn refresh_keeps_other_feeds_when_one_fails() {
    let mut c = PodcastCollection::new();
    c.insert(podcast("Old A", "http://a"));
    c.insert(podcast("Old B", "http://b"));
    c.insert(podcast("Old C", "http://c"));
    let fetched = vec![
        Ok(feed_xml("New A")),
        Err("timed out".to_string()),
        Ok(feed_xml("New C")),
    ];
    let report = refresh_all_apply(&mut c, fetched);
    assert_eq!(report.len(), 3);
    assert!(matches!(report[0], Ok(())));
    assert!(matches!(report[1], Err(SyncError::Network(_))));
    assert!(matches!(report[2], Ok(())));
    assert_eq!(c.get(0).title, "New A");
    assert_eq!(c.get(1).title, "Old B");
    assert_eq!(c.get(2).title, "New C");
    assert_eq!(c.get(0).source_url, "http://a");
    assert_eq!(c.get(1).source_url, "http://b");
}

#[test]
fn refresh_reports_parse_failure_distinctly() {
    let mut c = PodcastCollection::new();
    c.insert(podcast("Old", "http://a"));
    let report = refresh_all_apply(&mut c, vec![Ok("<broken".to_string())]);
    assert!(matches!(report[0], Err(SyncError::Parse(_))));
    assert_eq!(c.get(0).title, "Old");
}

#[test]
fn refresh_replaces_episode_list_wholesale() {
    let mut c = PodcastCollection::new();
    let mut old = podcast("Old", "http://a");
    old.episodes.push(Episode {
        title: "Stale".to_string(),
        description: String::new(),
        publish_date: "2000-01-01".to_string(),
        audio_url: "http://x/old.mp3".to_string(),
        audio_mime_type: "audio/mpeg".to_string(),
    });
    c.insert(old);
    let report = refresh_all_apply(&mut c, vec![Ok(feed_xml("New"))]);
    assert!(matches!(report[0], Ok(())));
    assert_eq!(c.get(0).episodes.len(), 1);
    assert_eq!(c.get(0).episodes[0].title, "Ep");
}

#[test]
fn refresh_progress_moves_each_feed_independently() {
    let mut p = RefreshProgress::new(3);
    assert_eq!(p.len(), 3);
    assert_eq!(p.get(0), RefreshStatus::Pending);
    assert!(!p.all_done());
    p.mark(0, true);
    p.mark(2, false);
    assert_eq!(p.get(0), RefreshStatus::Succeeded);
    assert_eq!(p.get(1), RefreshStatus::Pending);
    assert_eq!(p.get(2), RefreshStatus::Failed);
    assert!(!p.all_done());
    p.mark(1, true);
    assert!(p.all_done());
}

#[test]
fn sync_error_messages() {
    assert_eq!(
        SyncError::DuplicateFeed.message(),
        "feed is already subscribed"
    );
    assert_eq!(
        SyncError::Network("timed out".to_string()).message(),
        "network error: timed out"
    );
    assert_eq!(
        SyncError::Persist("disk full".to_string()).message(),
        "could not save feed: disk full"
    );
    assert_eq!(
        SyncError::Parse(teapod::rss::ParseError::MissingChannel).message(),
        "feed parse failed: feed has no channel element"
    );
}
