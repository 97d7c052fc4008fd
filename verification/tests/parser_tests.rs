use teapod::rss::{parse_feed, EnclosureAttr, FeedField, ParseError};
use teapod::xml::{XmlAttr, XmlNode};

const FEED_URL: &str = "http://example.com/feed.xml";

fn feed(channel_body: &str) -> String {
    format!(
        "<?xml version=\"1.0\"?><rss version=\"2.0\"><channel>{}</channel></rss>",
        channel_body
    )
}

fn item(body: &str) -> String {
    format!("<item>{}</item>", body)
}

const GOOD_ITEM: &str = "<title>Episode 1</title>\
    <description>First episode</description>\
    <pubDate>Mon, 01 Jan 2024 00:00:00 +0000</pubDate>\
    <enclosure url=\"http://x/ep1.mp3\" type=\"audio/mpeg\"/>";

#[test]
fn changelog_example_parses() {
    let xml = feed(&format!("<title>Changelog</title>{}", item(GOOD_ITEM)));
    let p = parse_feed(FEED_URL, &xml).unwrap();
    assert_eq!(p.title, "Changelog");
    assert_eq!(p.source_url, FEED_URL);
    assert_eq!(p.episodes.len(), 1);
    let ep = &p.episodes[0];
    assert_eq!(ep.title, "Episode 1");
    assert_eq!(ep.description, "First episode");
    assert_eq!(ep.publish_date, "2024-01-01");
    assert_eq!(ep.audio_url, "http://x/ep1.mp3");
    assert_eq!(ep.audio_mime_type, "audio/mpeg");
}

#[test]
fn n_items_give_n_episodes_in_source_order() {
    let mut body = String::from("<title>Show</title>");
    for i in 1..=3 {
        body.push_str(&item(&format!(
            "<title>Ep {i}</title>\
             <pubDate>0{i} Feb 2021 10:00:00 +0000</pubDate>\
             <enclosure url=\"http://x/{i}.mp3\" type=\"audio/mpeg\"/>"
        )));
    }
    let p = parse_feed(FEED_URL, &feed(&body)).unwrap();
    assert_eq!(p.episodes.len(), 3);
    assert_eq!(p.episodes[0].title, "Ep 1");
    assert_eq!(p.episodes[1].title, "Ep 2");
    assert_eq!(p.episodes[2].title, "Ep 3");
    assert_eq!(p.episodes[0].publish_date, "2021-02-01");
    assert_eq!(p.episodes[2].publish_date, "2021-02-03");
}

#[test]
fn missing_channel_fails_with_missing_channel() {
    let xml = "<?xml version=\"1.0\"?><rss version=\"2.0\"></rss>";
    assert_eq!(parse_feed(FEED_URL, xml), Err(ParseError::MissingChannel));
}

#[test]
fn malformed_xml_fails_with_missing_channel() {
    assert_eq!(
        parse_feed(FEED_URL, "this is not XML <<<"),
        Err(ParseError::MissingChannel)
    );
    assert_eq!(parse_feed(FEED_URL, ""), Err(ParseError::MissingChannel));
}

#[test]
fn enclosure_without_url_fails_whole_feed() {
    let body = format!(
        "<title>Show</title>{}{}",
        item(GOOD_ITEM),
        item(
            "<title>Ep 2</title>\
             <pubDate>Tue, 02 Jan 2024 00:00:00 +0000</pubDate>\
             <enclosure type=\"audio/mpeg\"/>"
        )
    );
    assert_eq!(
        parse_feed(FEED_URL, &feed(&body)),
        Err(ParseError::MissingAttribute(EnclosureAttr::Url))
    );
}

#[test]
fn enclosure_without_type_fails_whole_feed() {
    let body = format!(
        "<title>Show</title>{}",
        item(
            "<title>Ep</title>\
             <pubDate>Mon, 01 Jan 2024 00:00:00 +0000</pubDate>\
             <enclosure url=\"http://x/e.mp3\"/>"
        )
    );
    assert_eq!(
        parse_feed(FEED_URL, &feed(&body)),
        Err(ParseError::MissingAttribute(EnclosureAttr::Type))
    );
}

#[test]
fn item_without_title_fails() {
    let body = format!(
        "<title>Show</title>{}",
        item(
            "<pubDate>Mon, 01 Jan 2024 00:00:00 +0000</pubDate>\
             <enclosure url=\"http://x/e.mp3\" type=\"audio/mpeg\"/>"
        )
    );
    assert_eq!(
        parse_feed(FEED_URL, &feed(&body)),
        Err(ParseError::MissingField(FeedField::Title))
    );
}

#[test]
fn channel_without_title_fails() {
    let xml = feed(&item(GOOD_ITEM));
    assert_eq!(
        parse_feed(FEED_URL, &xml),
        Err(ParseError::MissingField(FeedField::Title))
    );
}

#[test]
fn empty_channel_title_fails() {
    let xml = feed(&format!("<title></title>{}", item(GOOD_ITEM)));
    assert_eq!(
        parse_feed(FEED_URL, &xml),
        Err(ParseError::MissingField(FeedField::Title))
    );
}

#[test]
fn item_without_pub_date_fails() {
    let body = format!(
        "<title>Show</title>{}",
        item(
            "<title>Ep</title>\
             <enclosure url=\"http://x/e.mp3\" type=\"audio/mpeg\"/>"
        )
    );
    assert_eq!(
        parse_feed(FEED_URL, &feed(&body)),
        Err(ParseError::MissingField(FeedField::PubDate))
    );
}

#[test]
fn malformed_pub_date_fails() {
    let body = format!(
        "<title>Show</title>{}",
        item(
            "<title>Ep</title>\
             <pubDate>yesterday around noon</pubDate>\
             <enclosure url=\"http://x/e.mp3\" type=\"audio/mpeg\"/>"
        )
    );
    assert_eq!(
        parse_feed(FEED_URL, &feed(&body)),
        Err(ParseError::MalformedDate)
    );
}

#[test]
fn item_without_enclosure_fails() {
    let body = format!(
        "<title>Show</title>{}",
        item(
            "<title>Ep</title>\
             <pubDate>Mon, 01 Jan 2024 00:00:00 +0000</pubDate>"
        )
    );
    assert_eq!(
        parse_feed(FEED_URL, &feed(&body)),
        Err(ParseError::MissingField(FeedField::Enclosure))
    );
}

#[test]
fn descriptions_default_to_empty() {
    let body = format!(
        "<title>Show</title>{}",
        item(
            "<title>Ep</title>\
             <pubDate>Mon, 01 Jan 2024 00:00:00 +0000</pubDate>\
             <enclosure url=\"http://x/e.mp3\" type=\"audio/mpeg\"/>"
        )
    );
    let p = parse_feed(FEED_URL, &feed(&body)).unwrap();
    assert_eq!(p.description, "");
    assert_eq!(p.episodes[0].description, "");
}

#[test]
fn channel_description_is_kept() {
    let xml = feed("<title>Show</title><description>All about shows</description>");
    let p = parse_feed(FEED_URL, &xml).unwrap();
    assert_eq!(p.description, "All about shows");
    assert_eq!(p.episodes.len(), 0);
}

#[test]
fn parse_error_messages() {
    assert_eq!(
        ParseError::MissingChannel.message(),
        "feed has no channel element"
    );
    assert_eq!(
        ParseError::MissingField(FeedField::PubDate).message(),
        "feed is missing required field: pubDate"
    );
    assert_eq!(
        ParseError::MissingAttribute(EnclosureAttr::Url).message(),
        "feed enclosure is missing attribute: url"
    );
    assert_eq!(
        ParseError::MalformedDate.message(),
        "feed pubDate is not an RFC 2822 date-time"
    );
    assert_eq!(
        ParseError::MalformedNumber.message(),
        "feed holds a malformed number"
    );
}

#[test]
fn first_channel_in_document_order_wins() {
    let xml = "<rss><channel><title>First</title></channel>\
               <channel><title>Second</title></channel></rss>";
    let p = parse_feed(FEED_URL, xml).unwrap();
    assert_eq!(p.title, "First");
}

#[test]
fn xml_entities_are_resolved() {
    let xml = feed("<title>Tea &amp; Pods</title>");
    let p = parse_feed(FEED_URL, &xml).unwrap();
    assert_eq!(p.title, "Tea & Pods");
}

fn elem(name: &str, text: Option<&str>, attrs: Vec<XmlAttr>, children: Vec<XmlNode>) -> XmlNode {
    XmlNode {
        name: name.to_string(),
        text: text.map(|t| t.to_string()),
        attrs,
        children,
    }
}

#[test]
fn channel_tree_parses_without_going_through_xml_text() {
    let channel = elem(
        "channel",
        None,
        vec![],
        vec![
            elem("title", Some("Handmade"), vec![], vec![]),
            elem(
                "item",
                None,
                vec![],
                vec![
                    elem("title", Some("Ep"), vec![], vec![]),
                    elem("pubDate", Some("Mon, 01 Jan 2024 00:00:00 +0000"), vec![], vec![]),
                    elem(
                        "enclosure",
                        None,
                        vec![
                            XmlAttr {
                                name: "url".to_string(),
                                value: "http://x/e.mp3".to_string(),
                            },
                            XmlAttr {
                                name: "type".to_string(),
                                value: "audio/mpeg".to_string(),
                            },
                        ],
                        vec![],
                    ),
                ],
            ),
        ],
    );
    let p = teapod::rss::parse_channel("http://u", &channel).unwrap();
    assert_eq!(p.title, "Handmade");
    assert_eq!(p.source_url, "http://u");
    assert_eq!(p.episodes.len(), 1);
    assert_eq!(p.episodes[0].publish_date, "2024-01-01");
}
