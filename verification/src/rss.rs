//! The feed parser: turns RSS text into a `Podcast` value or a typed
//! parse error. A feed must hold one `channel` element; for the channel,
//! `title` is required and `description` defaults to empty. Every `item`
//! needs a `title`, a `pubDate` holding an RFC 2822 date-time, and an
//! `enclosure` with both a `url` and a `type` attribute; `description`
//! defaults to empty. One malformed item fails the whole feed.
//!
//! A malformed `pubDate` is a hard error rather than being silently
//! replaced by a default date: a defaulted date would corrupt sorting
//! and display without any signal to the user.

use vstd::prelude::*;

verus! {

use vstd::string::StringExecFns;
use crate::podcast::{Episode, EpisodeModel, Podcast, PodcastModel};
use crate::xml::{
    attr_value,
    first_child_named,
    first_element,
    first_element_of,
    XmlNode,
    XmlTree,
};

/// A channel or item field that a feed is required to carry.
#[derive(Clone, Copy, Debug, PartialEq, Eq, Structural)]
pub enum FeedField {
    Title,
    PubDate,
    Enclosure,
}

/// An attribute that an `enclosure` element is required to carry.
#[derive(Clone, Copy, Debug, PartialEq, Eq, Structural)]
pub enum EnclosureAttr {
    Url,
    Type,
}

/// Why a feed failed to parse. The failure is always fatal to the whole
/// feed: no partial episode list is ever returned.
#[derive(Clone, Copy, Debug, PartialEq, Eq, Structural)]
pub enum ParseError {
    /// The text is not well-formed XML or holds no `channel` element.
    MissingChannel,
    /// A required element is absent, or present without text content.
    MissingField(FeedField),
    /// An `enclosure` element lacks a required attribute.
    MissingAttribute(EnclosureAttr),
    /// A `pubDate` does not parse as an RFC 2822 date-time.
    MalformedDate,
    /// A numeric field does not parse as a number.
    MalformedNumber,
}

impl FeedField {
    /// The field's tag name as it stands in the feed.
    pub open spec fn spec_name(self) -> Seq<char> {
        match self {
            FeedField::Title => "title"@,
            FeedField::PubDate => "pubDate"@,
            FeedField::Enclosure => "enclosure"@,
        }
    }

    /// The field's tag name as it stands in the feed.
    pub fn name_str(&self) -> (r: &'static str)
        ensures
            r@ == self.spec_name(),
    {
        match self {
            FeedField::Title => "title",
            FeedField::PubDate => "pubDate",
            FeedField::Enclosure => "enclosure",
        }
    }
}

impl EnclosureAttr {
    /// The attribute's name as it stands on the enclosure element.
    pub open spec fn spec_name(self) -> Seq<char> {
        match self {
            EnclosureAttr::Url => "url"@,
            EnclosureAttr::Type => "type"@,
        }
    }

    /// The attribute's name as it stands on the enclosure element.
    pub fn name_str(&self) -> (r: &'static str)
        ensures
            r@ == self.spec_name(),
    {
        match self {
            EnclosureAttr::Url => "url",
            EnclosureAttr::Type => "type",
        }
    }
}

impl ParseError {
    /// A human-readable account of the failure.
    pub open spec fn spec_message(self) -> Seq<char> {
        match self {
            ParseError::MissingChannel => "feed has no channel element"@,
            ParseError::MissingField(f) => "feed is missing required field: "@ + f.spec_name(),
            ParseError::MissingAttribute(a) => "feed enclosure is missing attribute: "@
                + a.spec_name(),
            ParseError::MalformedDate => "feed pubDate is not an RFC 2822 date-time"@,
            ParseError::MalformedNumber => "feed holds a malformed number"@,
        }
    }

    /// Writes the failure for display.
    pub fn message(&self) -> (r: String)
        ensures
            r@ == self.spec_message(),
    {
        match self {
            ParseError::MissingChannel => "feed has no channel element".to_owned(),
            ParseError::MissingField(f) => {
                let mut m = "feed is missing required field: ".to_owned();
                m.append(f.name_str());
                m
            },
            ParseError::MissingAttribute(a) => {
                let mut m = "feed enclosure is missing attribute: ".to_owned();
                m.append(a.name_str());
                m
            },
            ParseError::MalformedDate => "feed pubDate is not an RFC 2822 date-time".to_owned(),
            ParseError::MalformedNumber => "feed holds a malformed number".to_owned(),
        }
    }
}

/// The calendar date, written `YYYY-MM-DD`, of the RFC 2822 date-time
/// held in `s`, as computed by `parse_rfc2822_date`; `None` when `s` is
/// not an RFC 2822 date-time.
pub uninterp spec fn rfc2822_date_of(s: Seq<char>) -> Option<Seq<char>>;

/// Relies on chrono: `DateTime::parse_from_rfc2822` returns `Err` on text
/// it cannot parse rather than panicking, and the calendar date of the
/// parsed moment, written by `NaiveDate`'s `Display`, depends on the
/// input text alone.
#[verifier::external_body]
fn parse_rfc2822_date(text: &str) -> (r: Option<String>)
    ensures
        match r {
            Option::Some(d) => rfc2822_date_of(text@) == Option::Some(d@),
            Option::None => rfc2822_date_of(text@) is None,
        },
{
    match chrono::DateTime::parse_from_rfc2822(text) {
        Ok(dt) => Some(dt.date_naive().to_string()),
        Err(_) => None,
    }
}

/// The text content of the first child with the given name; empty when
/// there is no such child or it has no text.
pub open spec fn spec_child_text_or_empty(children: Seq<XmlTree>, name: Seq<char>) -> Seq<char> {
    match first_child_named(children, name) {
        Option::None => Seq::empty(),
        Option::Some(c) => match c.text {
            Option::None => Seq::empty(),
            Option::Some(t) => t,
        },
    }
}

/// What parsing one `item` element yields: an episode, or the first
/// error among a missing or empty `title`, a missing or empty `pubDate`,
/// a `pubDate` that is not an RFC 2822 date-time, a missing `enclosure`,
/// and a missing `url` or `type` attribute on the enclosure.
pub open spec fn spec_parse_item(item: XmlTree) -> Result<EpisodeModel, ParseError> {
    match first_child_named(item.children, "title"@) {
        Option::None => Result::Err(ParseError::MissingField(FeedField::Title)),
        Option::Some(t) => match t.text {
            Option::None => Result::Err(ParseError::MissingField(FeedField::Title)),
            Option::Some(title) => match first_child_named(item.children, "pubDate"@) {
                Option::None => Result::Err(ParseError::MissingField(FeedField::PubDate)),
                Option::Some(d) => match d.text {
                    Option::None => Result::Err(ParseError::MissingField(FeedField::PubDate)),
                    Option::Some(raw_date) => match rfc2822_date_of(raw_date) {
                        Option::None => Result::Err(ParseError::MalformedDate),
                        Option::Some(date) => match first_child_named(
                            item.children,
                            "enclosure"@,
                        ) {
                            Option::None => Result::Err(
                                ParseError::MissingField(FeedField::Enclosure),
                            ),
                            Option::Some(enc) => match attr_value(enc.attrs, "url"@) {
                                Option::None => Result::Err(
                                    ParseError::MissingAttribute(EnclosureAttr::Url),
                                ),
                                Option::Some(audio_url) => match attr_value(enc.attrs, "type"@) {
                                    Option::None => Result::Err(
                                        ParseError::MissingAttribute(EnclosureAttr::Type),
                                    ),
                                    Option::Some(mime) => Result::Ok(
                                        EpisodeModel {
                                            title,
                                            description: spec_child_text_or_empty(
                                                item.children,
                                                "description"@,
                                            ),
                                            publish_date: date,
                                            audio_url,
                                            audio_mime_type: mime,
                                        },
                                    ),
                                },
                            },
                        },
                    },
                },
            },
        },
    }
}

/// What parsing the `item` children of a channel yields, in source
/// order: the episodes, or the error of the first malformed item.
pub open spec fn spec_parse_items(children: Seq<XmlTree>) -> Result<Seq<EpisodeModel>, ParseError>
    decreases children.len(),
{
    if children.len() == 0 {
        Result::Ok(Seq::empty())
    } else if children[0].name != "item"@ {
        spec_parse_items(children.drop_first())
    } else {
        match spec_parse_item(children[0]) {
            Result::Err(e) => Result::Err(e),
            Result::Ok(ep) => match spec_parse_items(children.drop_first()) {
                Result::Err(e) => Result::Err(e),
                Result::Ok(rest) => Result::Ok(seq![ep] + rest),
            },
        }
    }
}

/// What parsing a `channel` element yields: a podcast whose episodes are
/// the channel's items in source order, or the first error.
pub open spec fn spec_parse_channel(url: Seq<char>, channel: XmlTree) -> Result<
    PodcastModel,
    ParseError,
> {
    match first_child_named(channel.children, "title"@) {
        Option::None => Result::Err(ParseError::MissingField(FeedField::Title)),
        Option::Some(t) => match t.text {
            Option::None => Result::Err(ParseError::MissingField(FeedField::Title)),
            Option::Some(title) => match spec_parse_items(channel.children) {
                Result::Err(e) => Result::Err(e),
                Result::Ok(episodes) => Result::Ok(
                    PodcastModel {
                        title,
                        description: spec_child_text_or_empty(channel.children, "description"@),
                        source_url: url,
                        episodes,
                    },
                ),
            },
        },
    }
}

/// What parsing a whole feed yields: `MissingChannel` when the text is
/// not well-formed XML or holds no `channel` element, and otherwise the
/// parse of its first `channel` element.
pub open spec fn spec_parse_feed(url: Seq<char>, text: Seq<char>) -> Result<
    PodcastModel,
    ParseError,
> {
    match first_element_of(text, "channel"@) {
        Option::None => Result::Err(ParseError::MissingChannel),
        Option::Some(channel) => spec_parse_channel(url, channel),
    }
}

/// The text content of the first child with the given name, or empty.
fn child_text_or_empty(node: &XmlNode, name: &str) -> (r: String)
    ensures
        r@ == spec_child_text_or_empty(node@.children, name@),
{
    match node.find_child(name) {
        Option::None => String::new(),
        Option::Some(c) => match &c.text {
            Option::None => String::new(),
            Option::Some(t) => t.clone(),
        },
    }
}

/// Parses one `item` element of a channel into an episode.
fn parse_item(item: &XmlNode) -> (r: Result<Episode, ParseError>)
    ensures
        match r {
            Result::Ok(ep) => spec_parse_item(item@) == Result::<EpisodeModel, ParseError>::Ok(
                ep@,
            ),
            Result::Err(e) => spec_parse_item(item@) == Result::<EpisodeModel, ParseError>::Err(e),
        },
{
    let title = match item.find_child("title") {
        Option::None => {
            return Result::Err(ParseError::MissingField(FeedField::Title));
        },
        Option::Some(t) => match &t.text {
            Option::None => {
                return Result::Err(ParseError::MissingField(FeedField::Title));
            },
            Option::Some(text) => text.clone(),
        },
    };
    let raw_date = match item.find_child("pubDate") {
        Option::None => {
            return Result::Err(ParseError::MissingField(FeedField::PubDate));
        },
        Option::Some(d) => match &d.text {
            Option::None => {
                return Result::Err(ParseError::MissingField(FeedField::PubDate));
            },
            Option::Some(text) => text.clone(),
        },
    };
    let publish_date = match parse_rfc2822_date(raw_date.as_str()) {
        Option::None => {
            return Result::Err(ParseError::MalformedDate);
        },
        Option::Some(d) => d,
    };
    let enclosure = match item.find_child("enclosure") {
        Option::None => {
            return Result::Err(ParseError::MissingField(FeedField::Enclosure));
        },
        Option::Some(e) => e,
    };
    let audio_url = match enclosure.find_attr("url") {
        Option::None => {
            return Result::Err(ParseError::MissingAttribute(EnclosureAttr::Url));
        },
        Option::Some(v) => v.clone(),
    };
    let audio_mime_type = match enclosure.find_attr("type") {
        Option::None => {
            return Result::Err(ParseError::MissingAttribute(EnclosureAttr::Type));
        },
        Option::Some(v) => v.clone(),
    };
    let description = child_text_or_empty(item, "description");
    Result::Ok(Episode { title, description, publish_date, audio_url, audio_mime_type })
}

/// Parses a `channel` element into a podcast whose `source_url` is `url`.
///
/// This is the whole of the feed grammar past the XML parse itself: it
/// can be exercised on any element tree, however it was produced.
pub fn parse_channel(url: &str, channel: &XmlNode) -> (r: Result<Podcast, ParseError>)
    ensures
        match r {
            Result::Ok(p) => spec_parse_channel(url@, channel@) == Result::<
                PodcastModel,
                ParseError,
            >::Ok(p@),
            Result::Err(e) => spec_parse_channel(url@, channel@) == Result::<
                PodcastModel,
                ParseError,
            >::Err(e),
        },
{
    let title = match channel.find_child("title") {
        Option::None => {
            return Result::Err(ParseError::MissingField(FeedField::Title));
        },
        Option::Some(t) => match &t.text {
            Option::None => {
                return Result::Err(ParseError::MissingField(FeedField::Title));
            },
            Option::Some(text) => text.clone(),
        },
    };
    let ghost forest = crate::xml::xml_forest(channel.children@);
    proof {
        crate::xml::lemma_xml_forest_len(channel.children@);
        assert(forest.skip(0) =~= forest);
    }
    let mut episodes: Vec<Episode> = Vec::new();
    let mut i: usize = 0;
    #[verifier::loop_isolation(false)]
    while i < channel.children.len()
        invariant
            i <= channel.children@.len(),
            forest == channel@.children,
            forest.len() == channel.children@.len(),
            spec_parse_items(forest) == match spec_parse_items(forest.skip(i as int)) {
                Result::Err(e) => Result::<Seq<EpisodeModel>, ParseError>::Err(e),
                Result::Ok(rest) => Result::<Seq<EpisodeModel>, ParseError>::Ok(
                    crate::podcast::episode_models(episodes@) + rest,
                ),
            },
        decreases channel.children@.len() - i,
    {
        proof {
            crate::xml::lemma_xml_forest_index(channel.children@, i as int);
            assert(forest.skip(i as int)[0] == forest[i as int]);
            assert(forest.skip(i as int).drop_first() =~= forest.skip(i as int + 1));
        }
        let child = &channel.children[i];
        if crate::strutil::str_eq(child.name.as_str(), "item") {
            match parse_item(child) {
                Result::Err(e) => {
                    proof {
                        assert(forest.skip(i as int)[0].name == "item"@);
                        assert(spec_parse_items(forest.skip(i as int)) == Result::<
                            Seq<EpisodeModel>,
                            ParseError,
                        >::Err(e));
                        assert(spec_parse_items(forest) == Result::<
                            Seq<EpisodeModel>,
                            ParseError,
                        >::Err(e));
                    }
                    return Result::Err(e);
                },
                Result::Ok(ep) => {
                    let ghost pre = episodes@;
                    episodes.push(ep);
                    proof {
                        assert(crate::podcast::episode_models(episodes@) =~= crate::podcast::episode_models(pre) + seq![ep@]);
                        match spec_parse_items(forest.skip(i as int + 1)) {
                            Result::Err(_) => {},
                            Result::Ok(rest) => {
                                assert((crate::podcast::episode_models(pre) + seq![ep@]) + rest
                                    =~= crate::podcast::episode_models(pre) + (seq![ep@] + rest));
                            },
                        }
                    }
                },
            }
        }
        i = i + 1;
    }
    proof {
        assert(forest.skip(i as int) =~= Seq::<XmlTree>::empty());
        assert(spec_parse_items(forest) == Result::<Seq<EpisodeModel>, ParseError>::Ok(
            crate::podcast::episode_models(episodes@),
        ));
    }
    let description = child_text_or_empty(channel, "description");
    Result::Ok(Podcast { title, description, source_url: url.to_owned(), episodes })
}

/// Parses raw feed text into a podcast whose `source_url` is `url`.
///
/// The whole behaviour is pinned by `spec_parse_feed`: a feed that is
/// not well-formed XML, or holds no `channel` element, fails with
/// `MissingChannel`; otherwise the first `channel` element in document
/// order is parsed. One malformed item fails the whole feed.
pub fn parse_feed(url: &str, text: &str) -> (r: Result<Podcast, ParseError>)
    ensures
        match r {
            Result::Ok(p) => spec_parse_feed(url@, text@) == Result::<
                PodcastModel,
                ParseError,
            >::Ok(p@),
            Result::Err(e) => spec_parse_feed(url@, text@) == Result::<
                PodcastModel,
                ParseError,
            >::Err(e),
        },
        first_element_of(text@, "channel"@) is None ==> (r matches Result::Err(
            ParseError::MissingChannel,
        )),
{
    match first_element(text, "channel") {
        Option::None => Result::Err(ParseError::MissingChannel),
        Option::Some(channel) => parse_channel(url, &channel),
    }
}

/// A feed that parses is keyed by the URL it was requested under.
pub proof fn lemma_parse_feed_url(url: Seq<char>, text: Seq<char>)
    requires
        spec_parse_feed(url, text) is Ok,
    ensures
        spec_parse_feed(url, text)->Ok_0.source_url == url,
{
}

/// The `item` children of a channel, in source order.
pub open spec fn item_children(children: Seq<XmlTree>) -> Seq<XmlTree>
    decreases children.len(),
{
    if children.len() == 0 {
        Seq::empty()
    } else if children[0].name == "item"@ {
        seq![children[0]] + item_children(children.drop_first())
    } else {
        item_children(children.drop_first())
    }
}

/// A channel whose items all parse yields exactly one episode per `item`
/// child, in source order: the k-th episode is the parse of the k-th
/// item.
pub proof fn lemma_episodes_match_items(children: Seq<XmlTree>)
    requires
        spec_parse_items(children) is Ok,
    ensures
        spec_parse_items(children)->Ok_0.len() == item_children(children).len(),
        forall|k: int|
            0 <= k < item_children(children).len() ==> spec_parse_item(
                item_children(children)[k],
            ) == Result::<EpisodeModel, ParseError>::Ok(spec_parse_items(children)->Ok_0[k]),
    decreases children.len(),
{
    if children.len() == 0 {
    } else {
        lemma_episodes_match_items(children.drop_first());
    }
}

/// When every `item` child is well-formed, parsing the items succeeds.
pub proof fn lemma_well_formed_items_parse(children: Seq<XmlTree>)
    requires
        forall|k: int|
            0 <= k < item_children(children).len() ==> spec_parse_item(
                #[trigger] item_children(children)[k],
            ) is Ok,
    ensures
        spec_parse_items(children) is Ok,
    decreases children.len(),
{
    if children.len() == 0 {
    } else {
        let rest = children.drop_first();
        if children[0].name == "item"@ {
            assert(item_children(children)[0] == children[0]);
            assert forall|k: int|
                0 <= k < item_children(rest).len() implies spec_parse_item(
                #[trigger] item_children(rest)[k],
            ) is Ok by {
                assert(item_children(children)[k + 1] == item_children(rest)[k]);
            }
        } else {
            assert(item_children(children) == item_children(rest));
        }
        lemma_well_formed_items_parse(rest);
    }
}

/// A channel with a title and N well-formed items parses to a podcast
/// with exactly N episodes, in source order.
pub proof fn lemma_well_formed_channel_parses(url: Seq<char>, channel: XmlTree)
    requires
        (first_child_named(channel.children, "title"@) matches Option::Some(t) && t.text is Some),
        forall|k: int|
            0 <= k < item_children(channel.children).len() ==> spec_parse_item(
                #[trigger] item_children(channel.children)[k],
            ) is Ok,
    ensures
        spec_parse_channel(url, channel) is Ok,
        spec_parse_channel(url, channel)->Ok_0.episodes.len() == item_children(
            channel.children,
        ).len(),
{
    lemma_well_formed_items_parse(channel.children);
    lemma_episodes_match_items(channel.children);
}

/// One malformed item fails the parse of all the channel's items: no
/// partial episode list is ever returned.
pub proof fn lemma_item_error_fails_items(children: Seq<XmlTree>, k: int)
    requires
        0 <= k < item_children(children).len(),
        spec_parse_item(item_children(children)[k]) is Err,
    ensures
        spec_parse_items(children) is Err,
{
    if spec_parse_items(children) is Ok {
        lemma_episodes_match_items(children);
        assert(false);
    }
}

/// Parsing a channel with N well-formed items yields a podcast with
/// exactly N episodes, in source order, keyed by the requested URL.
pub proof fn lemma_channel_episode_count(url: Seq<char>, channel: XmlTree)
    requires
        spec_parse_channel(url, channel) is Ok,
    ensures
        spec_parse_channel(url, channel)->Ok_0.episodes.len() == item_children(
            channel.children,
        ).len(),
        forall|k: int|
            0 <= k < item_children(channel.children).len() ==> spec_parse_item(
                item_children(channel.children)[k],
            ) == Result::<EpisodeModel, ParseError>::Ok(
                spec_parse_channel(url, channel)->Ok_0.episodes[k],
            ),
        spec_parse_channel(url, channel)->Ok_0.source_url == url,
{
    lemma_episodes_match_items(channel.children);
}

/// A channel holding one malformed item, wherever it stands, does not
/// parse: the failure is fatal to the whole feed.
pub proof fn lemma_channel_item_error(url: Seq<char>, channel: XmlTree, k: int)
    requires
        0 <= k < item_children(channel.children).len(),
        spec_parse_item(item_children(channel.children)[k]) is Err,
    ensures
        spec_parse_channel(url, channel) is Err,
{
    lemma_item_error_fails_items(channel.children, k);
}

} // verus!
