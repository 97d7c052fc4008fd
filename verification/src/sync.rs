//! The feed synchronisation engine's decisions: the duplicate rule and
//! the in-memory half of `add` and `refresh_all`. Network fetches and
//! persistence are the caller's; every outcome is handed back in as a
//! plain value and each feed's success or failure is independent of the
//! others'.

use vstd::prelude::*;

verus! {

use vstd::string::StringExecFns;
use crate::podcast::{has_source_url, Podcast, PodcastCollection, PodcastModel};
use crate::rss::{parse_feed, spec_parse_feed, ParseError};

/// Why one feed operation failed. Every variant is surfaced to the
/// caller; none is retried automatically.
#[derive(Debug)]
pub enum SyncError {
    /// The URL is already subscribed: a business-rule rejection.
    DuplicateFeed,
    /// The HTTP fetch failed; carries the fetcher's message.
    Network(String),
    /// The fetched text is not a usable feed.
    Parse(ParseError),
    /// The store could not persist the podcast; carries the store's
    /// message.
    Persist(String),
}

impl SyncError {
    /// A human-readable account of the failure.
    pub open spec fn spec_message(self) -> Seq<char> {
        match self {
            SyncError::DuplicateFeed => "feed is already subscribed"@,
            SyncError::Network(m) => "network error: "@ + m@,
            SyncError::Parse(e) => "feed parse failed: "@ + e.spec_message(),
            SyncError::Persist(m) => "could not save feed: "@ + m@,
        }
    }

    /// Writes the failure for display.
    pub fn message(&self) -> (r: String)
        ensures
            r@ == self.spec_message(),
    {
        match self {
            SyncError::DuplicateFeed => "feed is already subscribed".to_owned(),
            SyncError::Network(m) => {
                let mut s = "network error: ".to_owned();
                s.append(m.as_str());
                s
            },
            SyncError::Parse(e) => {
                let mut s = "feed parse failed: ".to_owned();
                let em = e.message();
                s.append(em.as_str());
                s
            },
            SyncError::Persist(m) => {
                let mut s = "could not save feed: ".to_owned();
                s.append(m.as_str());
                s
            },
        }
    }
}

/// What `add_prepare` decides: a duplicate URL is refused outright, a
/// failed fetch surfaces as `Network`, unusable feed text as `Parse`,
/// and otherwise the parsed podcast is returned for persisting.
pub open spec fn spec_add_prepare(
    subscribed: Seq<PodcastModel>,
    url: Seq<char>,
    fetched: Result<String, String>,
) -> Result<PodcastModel, SyncError> {
    if has_source_url(subscribed, url) {
        Result::Err(SyncError::DuplicateFeed)
    } else {
        match fetched {
            Result::Err(msg) => Result::Err(SyncError::Network(msg)),
            Result::Ok(text) => match spec_parse_feed(url, text@) {
                Result::Err(e) => Result::Err(SyncError::Parse(e)),
                Result::Ok(p) => Result::Ok(p),
            },
        }
    }
}

/// The part of `add(url)` between the network fetch and persisting: the
/// duplicate rule, the fetch outcome, and the parse. Touches nothing:
/// the caller persists the returned podcast and then commits it with
/// `add_commit`, so a failure on the way leaves the collection and the
/// store unchanged.
pub fn add_prepare(
    collection: &PodcastCollection,
    url: &str,
    fetched: Result<String, String>,
) -> (r: Result<Podcast, SyncError>)
    ensures
        match r {
            Result::Ok(p) => spec_add_prepare(collection@, url@, fetched) == Result::<
                PodcastModel,
                SyncError,
            >::Ok(p@),
            Result::Err(e) => spec_add_prepare(collection@, url@, fetched) == Result::<
                PodcastModel,
                SyncError,
            >::Err(e),
        },
{
    if collection.contains_url(url) {
        return Result::Err(SyncError::DuplicateFeed);
    }
    match fetched {
        Result::Err(msg) => Result::Err(SyncError::Network(msg)),
        Result::Ok(text) => match parse_feed(url, text.as_str()) {
            Result::Err(e) => Result::Err(SyncError::Parse(e)),
            Result::Ok(p) => Result::Ok(p),
        },
    }
}

/// What `add_commit` does to the collection: a podcast whose URL is
/// already subscribed is refused with `DuplicateFeed` and the collection
/// kept as it is; otherwise it is appended.
pub open spec fn spec_add_commit(subscribed: Seq<PodcastModel>, p: PodcastModel) -> (
    Seq<PodcastModel>,
    Result<(), SyncError>,
) {
    if has_source_url(subscribed, p.source_url) {
        (subscribed, Result::Err(SyncError::DuplicateFeed))
    } else {
        (subscribed.push(p), Result::Ok(()))
    }
}

/// Appends a newly added podcast to the collection, once it has been
/// persisted. The duplicate rule is checked again here, so the call is
/// safe whatever happened in between.
pub fn add_commit(collection: &mut PodcastCollection, p: Podcast) -> (r: Result<(), SyncError>)
    requires
        old(collection).wf(),
    ensures
        final(collection).wf(),
        final(collection)@ == spec_add_commit(old(collection)@, p@).0,
        r == spec_add_commit(old(collection)@, p@).1,
{
    if collection.insert(p) {
        Result::Ok(())
    } else {
        Result::Err(SyncError::DuplicateFeed)
    }
}

/// Adding the same URL twice: the first commit appends the podcast, the
/// second is refused with `DuplicateFeed` and leaves the collection — in
/// particular its length — unchanged.
pub proof fn lemma_add_twice(subscribed: Seq<PodcastModel>, p: PodcastModel, q: PodcastModel)
    requires
        !has_source_url(subscribed, p.source_url),
        q.source_url == p.source_url,
    ensures
        spec_add_commit(subscribed, p).1 == Result::<(), SyncError>::Ok(()),
        spec_add_commit(spec_add_commit(subscribed, p).0, q).1 == Result::<(), SyncError>::Err(
            SyncError::DuplicateFeed,
        ),
        spec_add_commit(spec_add_commit(subscribed, p).0, q).0 == spec_add_commit(
            subscribed,
            p,
        ).0,
{
    let s1 = subscribed.push(p);
    assert(s1[subscribed.len() as int] == p);
    assert(has_source_url(s1, q.source_url));
}

/// What one feed's refresh does, given the outcome of its fetch: a
/// failed fetch or parse leaves the old record and reports the distinct
/// failure; a successful parse replaces the record wholesale.
pub open spec fn spec_refresh_step(prev: PodcastModel, fetched: Result<String, String>) -> (
    PodcastModel,
    Result<(), SyncError>,
) {
    match fetched {
        Result::Err(msg) => (prev, Result::Err(SyncError::Network(msg))),
        Result::Ok(text) => match spec_parse_feed(prev.source_url, text@) {
            Result::Err(e) => (prev, Result::Err(SyncError::Parse(e))),
            Result::Ok(p) => (p, Result::Ok(())),
        },
    }
}

/// A refresh never changes a feed's identity: whatever one fetch
/// outcome does to a record, its source URL stays the same, so the
/// collection's unique-URL rule survives any refresh.
pub proof fn lemma_refresh_keeps_source_url(prev: PodcastModel, fetched: Result<String, String>)
    ensures
        spec_refresh_step(prev, fetched).0.source_url == prev.source_url,
{
    match fetched {
        Result::Err(_) => {},
        Result::Ok(text) => {
            if spec_parse_feed(prev.source_url, text@) is Ok {
                crate::rss::lemma_parse_feed_url(prev.source_url, text@);
            }
        },
    }
}

/// One entry of a finished refresh: the record and the report that one
/// feed's fetch outcome leads to.
pub open spec fn refresh_entry(
    prev: PodcastModel,
    fetched: Result<String, String>,
    cur: PodcastModel,
    rep: Result<(), SyncError>,
) -> bool {
    cur == spec_refresh_step(prev, fetched).0 && rep == spec_refresh_step(prev, fetched).1
}

/// The in-memory half of `refresh_all`: applies one fetch outcome per
/// subscribed feed, in order, and reports one result per feed, in the
/// same order. Each feed is refreshed independently: a failure leaves
/// that one record untouched and never disturbs the others.
pub fn refresh_all_apply(
    collection: &mut PodcastCollection,
    fetched: Vec<Result<String, String>>,
) -> (report: Vec<Result<(), SyncError>>)
    requires
        old(collection).wf(),
        fetched@.len() == old(collection)@.len(),
    ensures
        final(collection).wf(),
        final(collection)@.len() == old(collection)@.len(),
        report@.len() == old(collection)@.len(),
        forall|i: int|
            0 <= i < old(collection)@.len() ==> #[trigger] refresh_entry(
                old(collection)@[i],
                fetched@[i],
                final(collection)@[i],
                report@[i],
            ),
{
    let mut report: Vec<Result<(), SyncError>> = Vec::new();
    let mut i: usize = 0;
    #[verifier::loop_isolation(false)]
    while i < fetched.len()
        invariant
            i <= fetched@.len(),
            report@.len() == i,
            collection.wf(),
            collection@.len() == old(collection)@.len(),
            forall|k: int|
                i <= k < old(collection)@.len() ==> collection@[k] == old(collection)@[k],
            forall|k: int|
                0 <= k < i ==> #[trigger] refresh_entry(
                    old(collection)@[k],
                    fetched@[k],
                    collection@[k],
                    report@[k],
                ),
        decreases fetched@.len() - i,
    {
        let ghost coll0 = collection@;
        let ghost rep0 = report@;
        match &fetched[i] {
            Result::Err(msg) => {
                report.push(Result::Err(SyncError::Network(msg.clone())));
            },
            Result::Ok(text) => {
                let url = collection.get(i).source_url.clone();
                match parse_feed(url.as_str(), text.as_str()) {
                    Result::Err(e) => {
                        report.push(Result::Err(SyncError::Parse(e)));
                    },
                    Result::Ok(p) => {
                        proof {
                            crate::rss::lemma_parse_feed_url(url@, text@);
                        }
                        collection.replace(i, p);
                        report.push(Result::Ok(()));
                    },
                }
            },
        }
        proof {
            assert forall|k: int| 0 <= k < i + 1 implies #[trigger] refresh_entry(
                old(collection)@[k],
                fetched@[k],
                collection@[k],
                report@[k],
            ) by {
                if k < i as int {
                    assert(refresh_entry(
                        old(collection)@[k],
                        fetched@[k],
                        coll0[k],
                        rep0[k],
                    ));
                    assert(report@[k] == rep0[k]);
                    assert(collection@[k] == coll0[k]);
                }
            }
        }
        i = i + 1;
    }
    report
}

/// How far one feed of a running refresh has come.
#[derive(Clone, Copy, Debug, PartialEq, Eq, Structural)]
pub enum RefreshStatus {
    Pending,
    Succeeded,
    Failed,
}

/// The per-feed progress of a running refresh, index-aligned with the
/// podcast collection: each feed moves from pending to succeeded or
/// failed independently of the others.
pub struct RefreshProgress {
    statuses: Vec<RefreshStatus>,
}

impl View for RefreshProgress {
    type V = Seq<RefreshStatus>;

    closed spec fn view(&self) -> Seq<RefreshStatus> {
        self.statuses@
    }
}

impl RefreshProgress {
    /// A fresh refresh over `n` feeds, all still pending.
    pub fn new(n: usize) -> (p: RefreshProgress)
        ensures
            p@.len() == n,
            forall|k: int| 0 <= k < n ==> p@[k] == RefreshStatus::Pending,
    {
        let mut statuses: Vec<RefreshStatus> = Vec::new();
        let mut i: usize = 0;
        while i < n
            invariant
                i <= n,
                statuses@.len() == i,
                forall|k: int| 0 <= k < i ==> statuses@[k] == RefreshStatus::Pending,
            decreases n - i,
        {
            statuses.push(RefreshStatus::Pending);
            i = i + 1;
        }
        RefreshProgress { statuses }
    }

    pub fn len(&self) -> (n: usize)
        ensures
            n == self@.len(),
    {
        self.statuses.len()
    }

    pub fn get(&self, i: usize) -> (s: RefreshStatus)
        requires
            i < self@.len(),
        ensures
            s == self@[i as int],
    {
        self.statuses[i]
    }

    /// Records that feed `i` finished, leaving every other feed's status
    /// as it was.
    pub fn mark(&mut self, i: usize, success: bool)
        requires
            i < old(self)@.len(),
        ensures
            final(self)@ == old(self)@.update(
                i as int,
                if success {
                    RefreshStatus::Succeeded
                } else {
                    RefreshStatus::Failed
                },
            ),
    {
        let s = if success {
            RefreshStatus::Succeeded
        } else {
            RefreshStatus::Failed
        };
        self.statuses.set(i, s);
    }

    /// Whether every feed has finished, one way or the other.
    pub fn all_done(&self) -> (r: bool)
        ensures
            r == forall|k: int| 0 <= k < self@.len() ==> self@[k] != RefreshStatus::Pending,
    {
        let mut i: usize = 0;
        while i < self.statuses.len()
            invariant
                i <= self@.len(),
                forall|k: int| 0 <= k < i ==> self@[k] != RefreshStatus::Pending,
            decreases self@.len() - i,
        {
            if matches!(self.statuses[i], RefreshStatus::Pending) {
                return false;
            }
            i = i + 1;
        }
        true
    }
}

} // verus!
