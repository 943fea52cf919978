//! The Fleet Registry: the one ordered sequence of tracked hosts that the
//! poller (writer) and the UI (reader, occasional writer) share. Every
//! mutation is a full-sequence replace or an append, never an in-place edit,
//! so a reader always sees either the whole pre-update or the whole
//! post-update sequence; the sequence never shrinks during a session.
//! The lock that serialises the two actors lives outside this crate; the
//! operations and their guarantees live here.

use vstd::prelude::*;
use crate::server::{Server, ServerView, all_placeholders, fleet_view, init_with_endpoint};

verus! {

/// The shared, append-only list of tracked hosts.
pub struct Registry {
    hosts: Vec<Server>,
}

/// What publishing a working copy `working` over a registry holding `reg`
/// yields: the working copy, extended with any hosts that were appended to
/// the registry after the working copy was taken, so that a publish never
/// shrinks the registry.
pub open spec fn spec_publish(reg: Seq<ServerView>, working: Seq<ServerView>) -> Seq<ServerView> {
    if working.len() >= reg.len() {
        working
    } else {
        working + reg.subrange(working.len() as int, reg.len() as int)
    }
}

impl View for Registry {
    type V = Seq<ServerView>;

    closed spec fn view(&self) -> Seq<ServerView> {
        fleet_view(self.hosts@)
    }
}

impl Registry {
    /// A registry that tracks a placeholder host for each configured endpoint.
    pub fn new(endpoints: Vec<String>) -> (r: Registry)
        ensures
            all_placeholders(r@, endpoints.deep_view()),
    {
        Registry { hosts: init_with_endpoint(endpoints) }
    }

    /// How many hosts are tracked.
    pub fn len(&self) -> (n: usize)
        ensures
            n == self@.len(),
    {
        self.hosts.len()
    }

    /// A consistent copy of the whole sequence: what a reader sees is the
    /// registry's entire current value, never a partial write.
    pub fn read(&self) -> (copy: Vec<Server>)
        ensures
            fleet_view(copy@) == self@,
    {
        let mut copy: Vec<Server> = Vec::new();
        let n = self.hosts.len();
        let mut i: usize = 0;
        while i < n
            invariant
                i <= n,
                n == self.hosts@.len(),
                copy@.len() == i,
                forall|j: int| 0 <= j < i ==> (#[trigger] copy@[j])@ == self.hosts@[j]@,
            decreases n - i,
        {
            copy.push(self.hosts[i].clone());
            i = i + 1;
        }
        proof {
            assert(fleet_view(copy@) =~= fleet_view(self.hosts@));
        }
        copy
    }

    /// Atomic insertion at the end, used when the operator registers a new
    /// endpoint.
    pub fn append(&mut self, host: Server)
        ensures
            final(self)@ == old(self)@.push(host@),
    {
        self.hosts.push(host);
        proof {
            assert(final(self)@ =~= old(self)@.push(host@));
        }
    }

    /// Atomic swap, used by the poller to publish its working copy after a
    /// fetch sweep. Hosts appended to the registry since the working copy was
    /// taken are kept, so the sequence never shrinks.
    pub fn publish(&mut self, working: Vec<Server>)
        ensures
            final(self)@ == spec_publish(old(self)@, fleet_view(working@)),
            final(self)@.len() >= old(self)@.len(),
    {
        let mut w = working;
        let ghost reg0 = self@;
        let ghost w0 = fleet_view(working@);
        while w.len() < self.hosts.len()
            invariant
                self@ == reg0,
                reg0 == fleet_view(self.hosts@),
                fleet_view(w@) == spec_publish_partial(reg0, w0, w@.len() as int),
                w@.len() >= w0.len(),
                w@.len() <= self.hosts@.len() || w@.len() == w0.len(),
            decreases self.hosts@.len() - w@.len(),
        {
            let ghost prev = fleet_view(w@);
            let ghost k = w@.len() as int;
            let next = self.hosts[w.len()].clone();
            w.push(next);
            proof {
                assert(next@ == reg0[k]);
                assert(fleet_view(w@) =~= prev.push(next@));
                assert(prev.push(reg0[k]) =~= spec_publish_partial(reg0, w0, k + 1));
            }
        }
        self.hosts = w;
        proof {
            assert(final(self)@ =~= spec_publish(reg0, fleet_view(working@)));
        }
    }
}

/// The working copy extended with the registry's hosts up to position `upto`:
/// the intermediate states of a publish.
pub open spec fn spec_publish_partial(
    reg: Seq<ServerView>,
    working: Seq<ServerView>,
    upto: int,
) -> Seq<ServerView> {
    if upto <= working.len() {
        working
    } else {
        working + reg.subrange(working.len() as int, upto)
    }
}

/// One mutation of the registry: a poller publish of some working copy, or a
/// UI append of one host.
pub enum RegistryOp {
    Publish(Seq<ServerView>),
    Append(ServerView),
}

/// The registry contents after one operation.
pub open spec fn apply_op(reg: Seq<ServerView>, op: RegistryOp) -> Seq<ServerView> {
    match op {
        RegistryOp::Publish(working) => spec_publish(reg, working),
        RegistryOp::Append(host) => reg.push(host),
    }
}

/// The registry contents after a sequence of operations, applied in order.
pub open spec fn apply_ops(reg: Seq<ServerView>, ops: Seq<RegistryOp>) -> Seq<ServerView>
    decreases ops.len(),
{
    if ops.len() == 0 {
        reg
    } else {
        apply_ops(apply_op(reg, ops[0]), ops.drop_first())
    }
}

/// A publish is atomic for a reader: afterwards the registry holds exactly
/// the published working copy, followed only by hosts that were appended
/// after that copy was taken — never a mix of two refresh cycles' data
/// within the copied range, and never fewer hosts than either side had.
pub proof fn lemma_publish_atomic(reg: Seq<ServerView>, working: Seq<ServerView>)
    ensures
        forall|i: int|
            0 <= i < working.len() ==> #[trigger] spec_publish(reg, working)[i] == working[i],
        forall|i: int|
            working.len() <= i < spec_publish(reg, working).len()
                ==> #[trigger] spec_publish(reg, working)[i] == reg[i],
        spec_publish(reg, working).len() == vstd::math::max(
            reg.len() as int,
            working.len() as int,
        ),
{
}

/// The registry is append-only in length: across any sequence of poller
/// publishes and UI appends, the number of tracked hosts never decreases.
pub proof fn lemma_registry_monotone(reg: Seq<ServerView>, ops: Seq<RegistryOp>)
    ensures
        apply_ops(reg, ops).len() >= reg.len(),
    decreases ops.len(),
{
    if ops.len() > 0 {
        let reg1 = apply_op(reg, ops[0]);
        assert(reg1.len() >= reg.len());
        lemma_registry_monotone(reg1, ops.drop_first());
    }
}

} // verus!
