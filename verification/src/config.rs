//! Shared, immutable configuration and the factory that hands one service
//! with a fresh sequence id to each accepted connection.

use vstd::prelude::*;
use std::sync::Arc;

verus! {

use crate::bisect_set::BisectSet;
use crate::filter::Filter;

/// What every request handler shares: the backend target and the allow-list.
/// Never mutated after construction.
pub struct Config {
    /// URI of the single backend that allowed requests are forwarded to.
    pub forward: String,
    /// The JSON-RPC methods permitted to reach the backend.
    pub allowed_rpcs: BisectSet,
}

impl Config {
    pub fn new(forward: String, allowed_rpcs: BisectSet) -> (r: Config)
        ensures
            r.forward == forward,
            r.allowed_rpcs == allowed_rpcs,
    {
        Config { forward, allowed_rpcs }
    }
}

/// Relies on std::sync::Arc::clone: the returned handle refers to the same
/// configuration value as the argument.
#[verifier::external_body]
pub(crate) fn share_config(c: &Arc<Config>) -> (r: Arc<Config>)
    ensures
        r == *c,
{
    Arc::clone(c)
}

/// Creates one per-connection service at a time, binding the shared
/// configuration and a fresh id from a strictly increasing counter.
pub struct ServiceMaker {
    config: Arc<Config>,
    counter: u64,
    issued: Ghost<Seq<u64>>,
}

impl ServiceMaker {
    /// The ids handed out so far, oldest first.
    pub closed spec fn issued_ids(&self) -> Seq<u64> {
        self.issued@
    }

    /// The id the next created service will carry.
    pub closed spec fn next_seq(&self) -> u64 {
        self.counter
    }

    /// The configuration every created service shares.
    pub closed spec fn config(&self) -> Config {
        *self.config
    }

    /// Ids handed out so far are strictly increasing and all precede the
    /// counter.
    pub closed spec fn wf(&self) -> bool {
        &&& forall|i: int, j: int|
            #![trigger self.issued@[i], self.issued@[j]]
            0 <= i < j < self.issued@.len() ==> self.issued@[i] < self.issued@[j]
        &&& forall|i: int| 0 <= i < self.issued@.len() ==> #[trigger] self.issued@[i] < self.counter
    }

    pub fn new(config: Arc<Config>) -> (r: ServiceMaker)
        ensures
            r.wf(),
            r.config() == *config,
            r.next_seq() == 0,
            r.issued_ids() == Seq::<u64>::empty(),
    {
        ServiceMaker { config, counter: 0, issued: Ghost(Seq::empty()) }
    }

    /// Creates the service for one accepted connection. It carries the next
    /// sequence id; the counter moves past that id, so no later service can
    /// ever repeat it.
    pub fn make_service(&mut self) -> (r: Filter)
        requires
            old(self).wf(),
            old(self).next_seq() < u64::MAX,
        ensures
            final(self).wf(),
            r.seq() == old(self).next_seq(),
            r.config() == old(self).config(),
            final(self).next_seq() == old(self).next_seq() + 1,
            final(self).issued_ids() == old(self).issued_ids().push(old(self).next_seq()),
            final(self).config() == old(self).config(),
    {
        let seq = self.counter;
        self.counter = self.counter + 1;
        proof {
            self.issued@ = self.issued@.push(seq);
        }
        let config = share_config(&self.config);
        Filter::new(config, seq)
    }

    /// The id the next created service would carry; lets a caller notice an
    /// exhausted counter before asking for a service.
    pub fn peek_next_seq(&self) -> (n: u64)
        ensures
            n == self.next_seq(),
    {
        self.counter
    }
}

/// Ids issued by one factory are pairwise distinct: strict growth of the
/// issued sequence rules out any reuse.
pub proof fn lemma_issued_ids_unique(m: ServiceMaker)
    requires
        m.wf(),
    ensures
        forall|i: int, j: int|
            #![trigger m.issued_ids()[i], m.issued_ids()[j]]
            0 <= i < j < m.issued_ids().len() ==> m.issued_ids()[i] != m.issued_ids()[j],
{
}

} // verus!
