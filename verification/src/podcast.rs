//! The podcast data model: feeds, episodes, and the collection of
//! subscribed podcasts with its unique-URL invariant.

use vstd::prelude::*;

verus! {

use crate::strutil::str_eq;

/// One episode of a podcast, immutable once parsed.
#[derive(Debug, PartialEq)]
pub struct Episode {
    pub title: String,
    pub description: String,
    /// The publication date, normalized to an ISO calendar date.
    pub publish_date: String,
    pub audio_url: String,
    pub audio_mime_type: String,
}

/// One subscribed podcast. Its identity is `source_url`.
#[derive(Debug, PartialEq)]
pub struct Podcast {
    pub title: String,
    pub description: String,
    pub source_url: String,
    pub episodes: Vec<Episode>,
}

/// The mathematical shape of an `Episode`.
pub struct EpisodeModel {
    pub title: Seq<char>,
    pub description: Seq<char>,
    pub publish_date: Seq<char>,
    pub audio_url: Seq<char>,
    pub audio_mime_type: Seq<char>,
}

/// The mathematical shape of a `Podcast`.
pub struct PodcastModel {
    pub title: Seq<char>,
    pub description: Seq<char>,
    pub source_url: Seq<char>,
    pub episodes: Seq<EpisodeModel>,
}

impl View for Episode {
    type V = EpisodeModel;

    open spec fn view(&self) -> EpisodeModel {
        EpisodeModel {
            title: self.title@,
            description: self.description@,
            publish_date: self.publish_date@,
            audio_url: self.audio_url@,
            audio_mime_type: self.audio_mime_type@,
        }
    }
}

/// The shapes of a sequence of episodes, element by element.
pub open spec fn episode_models(s: Seq<Episode>) -> Seq<EpisodeModel> {
    Seq::new(s.len(), |i: int| s[i]@)
}

impl View for Podcast {
    type V = PodcastModel;

    open spec fn view(&self) -> PodcastModel {
        PodcastModel {
            title: self.title@,
            description: self.description@,
            source_url: self.source_url@,
            episodes: episode_models(self.episodes@),
        }
    }
}

/// No two podcasts of the sequence share a source URL.
pub open spec fn unique_source_urls(s: Seq<PodcastModel>) -> bool {
    forall|i: int, j: int|
        0 <= i < s.len() && 0 <= j < s.len() && i != j ==> s[i].source_url != s[j].source_url
}

/// Whether some podcast of the sequence has the given source URL.
pub open spec fn has_source_url(s: Seq<PodcastModel>, url: Seq<char>) -> bool {
    exists|i: int| 0 <= i < s.len() && s[i].source_url == url
}

/// The collection of subscribed podcasts, in subscription order. No two
/// entries share a `source_url`.
pub struct PodcastCollection {
    items: Vec<Podcast>,
}

impl View for PodcastCollection {
    type V = Seq<PodcastModel>;

    closed spec fn view(&self) -> Seq<PodcastModel> {
        Seq::new(self.items@.len(), |i: int| self.items@[i]@)
    }
}

impl PodcastCollection {
    /// The unique-URL invariant: established by `new`, preserved by every
    /// method of the collection.
    pub open spec fn wf(&self) -> bool {
        unique_source_urls(self@)
    }

    /// An empty collection.
    pub fn new() -> (c: PodcastCollection)
        ensures
            c@ == Seq::<PodcastModel>::empty(),
            c.wf(),
    {
        let c = PodcastCollection { items: Vec::new() };
        proof {
            assert(c@ =~= Seq::<PodcastModel>::empty());
        }
        c
    }

    pub fn len(&self) -> (n: usize)
        ensures
            n == self@.len(),
    {
        self.items.len()
    }

    pub fn get(&self, i: usize) -> (p: &Podcast)
        requires
            i < self@.len(),
        ensures
            p@ == self@[i as int],
    {
        &self.items[i]
    }

    /// Whether a podcast with this source URL is already subscribed.
    pub fn contains_url(&self, url: &str) -> (r: bool)
        ensures
            r == has_source_url(self@, url@),
    {
        let mut i: usize = 0;
        while i < self.items.len()
            invariant
                i <= self.items@.len(),
                forall|k: int| 0 <= k < i ==> self@[k].source_url != url@,
            decreases self.items@.len() - i,
        {
            if str_eq(self.items[i].source_url.as_str(), url) {
                assert(self@[i as int].source_url == url@);
                return true;
            }
            i = i + 1;
        }
        false
    }

    /// Adds a newly subscribed podcast at the end of the collection.
    /// Refused, with the collection unchanged, when a podcast with the
    /// same source URL is already present.
    pub fn insert(&mut self, p: Podcast) -> (r: bool)
        requires
            old(self).wf(),
        ensures
            final(self).wf(),
            r == !has_source_url(old(self)@, p@.source_url),
            r ==> final(self)@ == old(self)@.push(p@),
            !r ==> final(self)@ == old(self)@,
    {
        if self.contains_url(p.source_url.as_str()) {
            false
        } else {
            self.items.push(p);
            proof {
                assert(self@ =~= old(self)@.push(p@));
            }
            true
        }
    }

    /// Replaces the podcast at position `i` wholesale, as a feed refresh
    /// does; the replacement keeps the same source URL, so uniqueness is
    /// preserved.
    pub fn replace(&mut self, i: usize, p: Podcast)
        requires
            old(self).wf(),
            i < old(self)@.len(),
            p@.source_url == old(self)@[i as int].source_url,
        ensures
            final(self).wf(),
            final(self)@ == old(self)@.update(i as int, p@),
    {
        self.items.set(i, p);
        proof {
            assert(self@ =~= old(self)@.update(i as int, p@));
        }
    }
}

} // verus!
