//! Key resolution: cache-aside lookup with single-flight fetch
//! coordination.
//!
//! The resolver decides; the enclosing service performs.  A request that
//! misses the cache asks [`KeyResolver::begin_resolve`] what to do while
//! holding the resolver exclusively: use a cached key, start the one fetch,
//! or await the fetch already in flight.  Whoever started the fetch reports
//! its outcome through [`KeyResolver::store_fetched`] or
//! [`KeyResolver::fetch_failed`]; every waiter then retries through
//! [`KeyResolver::lookup_after_fetch`].  No step here performs I/O, so no
//! lock is ever held across a network call.

use vstd::prelude::*;

use crate::errors::AuthError;
use crate::keys::KeyEntry;
use crate::keys::KeyOriginM;
use crate::keys::RsaKey;
use crate::keys::clone_key;
use crate::store::KeyStore;
use crate::store::entries_map;

verus! {

/// The resolver's abstract state: the cached keys, and whether a fetch is
/// in flight.
pub struct ResolverM {
    pub keys: Map<Seq<char>, KeyOriginM>,
    pub in_flight: bool,
}

/// What one resolution step decided.
pub enum ResolveStep {
    /// The key id was cached; here is its key.
    UseKey(RsaKey),
    /// The key id missed and no fetch was in flight: the caller must
    /// perform the one fetch and report its outcome.
    StartFetch,
    /// The key id missed while a fetch was in flight: the caller must
    /// await that fetch's outcome instead of issuing its own.
    AwaitFetch,
}

/// The label of a step, for the abstract model.
pub enum StepLabel {
    Hit,
    Start,
    Await,
}

/// The label a concrete step carries.
pub open spec fn step_label(step: ResolveStep) -> StepLabel {
    match step {
        ResolveStep::UseKey(_) => StepLabel::Hit,
        ResolveStep::StartFetch => StepLabel::Start,
        ResolveStep::AwaitFetch => StepLabel::Await,
    }
}

/// What one resolution step does to the abstract state.
pub open spec fn begin_model(s: ResolverM, kid: Seq<char>) -> (ResolverM, StepLabel) {
    if s.keys.contains_key(kid) {
        (s, StepLabel::Hit)
    } else if s.in_flight {
        (s, StepLabel::Await)
    } else {
        (ResolverM { keys: s.keys, in_flight: true }, StepLabel::Start)
    }
}

/// A run of resolution steps: the state they leave, and how many fetches
/// they start.
pub open spec fn run_resolves(s: ResolverM, kids: Seq<Seq<char>>) -> (ResolverM, nat)
    decreases kids.len(),
{
    if kids.len() == 0 {
        (s, 0nat)
    } else {
        let first = begin_model(s, kids[0]);
        let rest = run_resolves(first.0, kids.skip(1));
        (rest.0, rest.1 + (if first.1 == StepLabel::Start {
            1nat
        } else {
            0nat
        }))
    }
}

/// Thundering-herd avoidance: any number of resolution steps for key ids
/// outside the cache, with no fetch outcome in between, start exactly one
/// fetch — none at all if one was already in flight — and never touch the
/// cached keys.
pub proof fn lemma_single_flight(s: ResolverM, kids: Seq<Seq<char>>)
    requires
        forall|i: int| 0 <= i < kids.len() ==> !s.keys.contains_key(kids[i]),
    ensures
        run_resolves(s, kids).0.keys == s.keys,
        run_resolves(s, kids).1 == if kids.len() == 0 || s.in_flight {
            0nat
        } else {
            1nat
        },
    decreases kids.len(),
{
    if kids.len() == 0 {
    } else {
        let first = begin_model(s, kids[0]);
        assert(!s.keys.contains_key(kids[0]));
        assert(first.0.keys == s.keys);
        assert(first.0.in_flight);
        assert(forall|i: int|
            0 <= i < kids.skip(1).len() ==> kids.skip(1)[i] == kids[i + 1]);
        lemma_single_flight(first.0, kids.skip(1));
    }
}

/// The whole of one miss episode: any number of requests that miss the
/// cache — for one shared key id or several — while the fetched document
/// publishes each of their ids, start exactly one fetch between them; and
/// once that one fetch is merged, every request's retry finds its
/// published key.
pub proof fn lemma_miss_episode_succeeds(
    s: ResolverM,
    kids: Seq<Seq<char>>,
    fetched: Map<Seq<char>, KeyOriginM>,
)
    requires
        !s.in_flight,
        kids.len() > 0,
        forall|i: int| 0 <= i < kids.len() ==> !s.keys.contains_key(kids[i]),
        forall|i: int| 0 <= i < kids.len() ==> fetched.contains_key(#[trigger] kids[i]),
    ensures
        run_resolves(s, kids).1 == 1,
        forall|i: int|
            0 <= i < kids.len() ==> s.keys.union_prefer_right(fetched).contains_key(
                #[trigger] kids[i],
            ) && s.keys.union_prefer_right(fetched)[kids[i]] == fetched[kids[i]],
{
    lemma_single_flight(s, kids);
}

/// Orchestrates the key store and the fetcher: looks a key id up, and on a
/// miss coordinates the one bounded fetch that all concurrent misses share.
pub struct KeyResolver {
    store: KeyStore,
    fetch_in_flight: bool,
}

impl View for KeyResolver {
    type V = ResolverM;

    closed spec fn view(&self) -> ResolverM {
        ResolverM { keys: self.store@, in_flight: self.fetch_in_flight }
    }
}

impl KeyResolver {
    /// Internal invariant, inherited from the store.
    pub closed spec fn wf(&self) -> bool {
        self.store.wf()
    }

    /// A fresh resolver: empty cache, no fetch in flight.
    pub fn new() -> (r: KeyResolver)
        ensures
            r.wf(),
            r@.keys == Map::<Seq<char>, KeyOriginM>::empty(),
            !r@.in_flight,
    {
        KeyResolver { store: KeyStore::new(), fetch_in_flight: false }
    }

    /// Looks the cache up without taking any coordination step: the read
    /// path, shared by any number of concurrent requests.  A hit needs no
    /// exclusive access at all; only a miss proceeds to
    /// [`KeyResolver::begin_resolve`].
    pub fn cached_key(&self, kid: &str) -> (r: Option<RsaKey>)
        requires
            self.wf(),
        ensures
            match r {
                Some(k) => self@.keys.contains_key(kid@) && k@ == self@.keys[kid@],
                None => !self@.keys.contains_key(kid@),
            },
    {
        match self.store.lookup(kid) {
            Some(k) => Some(clone_key(k)),
            None => None,
        }
    }

    /// One resolution step, taken while holding the resolver exclusively:
    /// return the cached key, or start the one fetch, or join the fetch in
    /// flight.  Exactly [`begin_model`] on the abstract state.
    pub fn begin_resolve(&mut self, kid: &str) -> (step: ResolveStep)
        requires
            old(self).wf(),
        ensures
            final(self).wf(),
            final(self)@ == begin_model(old(self)@, kid@).0,
            step_label(step) == begin_model(old(self)@, kid@).1,
            step matches ResolveStep::UseKey(k) ==> old(self)@.keys.contains_key(kid@) && k@
                == old(self)@.keys[kid@],
    {
        let found = match self.store.lookup(kid) {
            Some(k) => Some(clone_key(k)),
            None => None,
        };
        match found {
            Some(k) => ResolveStep::UseKey(k),
            None => {
                if self.fetch_in_flight {
                    ResolveStep::AwaitFetch
                } else {
                    self.fetch_in_flight = true;
                    ResolveStep::StartFetch
                }
            },
        }
    }

    /// The one fetch succeeded: merge what it decoded and clear the
    /// in-flight mark, so waiters can look up and later misses may fetch
    /// afresh.
    pub fn store_fetched(&mut self, new_keys: &Vec<KeyEntry>)
        requires
            old(self).wf(),
        ensures
            final(self).wf(),
            final(self)@.keys == old(self)@.keys.union_prefer_right(entries_map(new_keys@)),
            !final(self)@.in_flight,
    {
        self.store.merge(new_keys);
        self.fetch_in_flight = false;
    }

    /// The one fetch failed: the cache is untouched, and the in-flight
    /// mark is cleared so a later request may retry naturally.
    pub fn fetch_failed(&mut self)
        requires
            old(self).wf(),
        ensures
            final(self).wf(),
            final(self)@.keys == old(self)@.keys,
            !final(self)@.in_flight,
    {
        self.fetch_in_flight = false;
    }

    /// The retry every resolver takes after the shared fetch settled:
    /// the key if the id is now cached; otherwise `UnknownKeyId` after a
    /// successful fetch — the issuer has no such key, and no further fetch
    /// is attempted for this request — or `KeyFetchFailed` carrying the
    /// cause after a failed one.
    pub fn lookup_after_fetch(&self, kid: &str, fetch_ok: bool, cause: &str) -> (r: Result<
        RsaKey,
        AuthError,
    >)
        requires
            self.wf(),
        ensures
            match r {
                Ok(k) => self@.keys.contains_key(kid@) && k@ == self@.keys[kid@],
                Err(e) => !self@.keys.contains_key(kid@) && if fetch_ok {
                    e == AuthError::UnknownKeyId
                } else {
                    e matches AuthError::KeyFetchFailed(c) && c@ == cause@
                },
            },
    {
        match self.store.lookup(kid) {
            Some(k) => Ok(clone_key(k)),
            None => {
                if fetch_ok {
                    Err(AuthError::UnknownKeyId)
                } else {
                    Err(AuthError::KeyFetchFailed(cause.to_owned()))
                }
            },
        }
    }
}

} // verus!
