//! The poller's merge engine. Fetching itself is network work done outside
//! this crate; what arrives here, once per host per sweep, is the outcome of
//! one fetch: `Some(snapshot)` when the endpoint answered HTTP 200 with a
//! body that parsed as a valid snapshot, `None` on any other outcome
//! (connection error, timeout, non-200 status, malformed body). A failure
//! leaves the host's previous snapshot untouched and is retried next cycle,
//! never fatal.

use vstd::prelude::*;
use crate::server::{Server, ServerView, fleet_view};

verus! {

/// The views of one sweep's fetch outcomes, in host order.
pub open spec fn outcomes_view(outcomes: Seq<Option<Server>>) -> Seq<Option<ServerView>> {
    outcomes.map_values(
        |o: Option<Server>|
            match o {
                Some(s) => Some(s@),
                None => None,
            },
    )
}

/// One host after one fetch outcome: a successful fetch replaces the stored
/// snapshot but keeps the host's endpoint; a failed one changes nothing.
pub open spec fn merge_outcome(host: ServerView, outcome: Option<ServerView>) -> ServerView {
    match outcome {
        Some(snapshot) => snapshot.with_endpoint(host.endpoint),
        None => host,
    }
}

/// A working copy after one full sweep of fetch outcomes.
pub open spec fn merge_sweep(
    hosts: Seq<ServerView>,
    outcomes: Seq<Option<ServerView>>,
) -> Seq<ServerView> {
    Seq::new(hosts.len(), |i: int| merge_outcome(hosts[i], outcomes[i]))
}

/// Merge one fetch outcome into the host it was fetched for.
pub fn apply_fetch(server: &mut Server, outcome: Option<Server>)
    ensures
        final(server)@ == merge_outcome(
            old(server)@,
            match outcome {
                Some(s) => Some(s@),
                None => None,
            },
        ),
{
    match outcome {
        Some(snapshot) => {
            let endpoint = server.endpoint.clone();
            *server = snapshot;
            server.endpoint = endpoint;
        },
        None => {},
    }
}

/// Merge a full sweep of fetch outcomes into the working copy, host by host.
/// Hosts whose fetch failed keep their previous snapshot; no outcome is ever
/// fatal.
pub fn apply_sweep(working: &mut Vec<Server>, outcomes: Vec<Option<Server>>)
    requires
        outcomes@.len() == old(working)@.len(),
    ensures
        fleet_view(final(working)@) == merge_sweep(
            fleet_view(old(working)@),
            outcomes_view(outcomes@),
        ),
{
    let ghost hosts0 = fleet_view(working@);
    let ghost outs = outcomes_view(outcomes@);
    let n = working.len();
    let mut result: Vec<Server> = Vec::new();
    let mut i: usize = 0;
    while i < n
        invariant
            i <= n,
            n == working@.len(),
            outcomes@.len() == n,
            hosts0 == fleet_view(working@),
            outs == outcomes_view(outcomes@),
            result@.len() == i,
            forall|j: int|
                0 <= j < i ==> (#[trigger] result@[j])@ == merge_sweep(hosts0, outs)[j],
        decreases n - i,
    {
        let mut entry = working[i].clone();
        let outcome: Option<Server> = match &outcomes[i] {
            Some(s) => Some(s.clone()),
            None => None,
        };
        proof {
            assert(outs[i as int] == match outcomes@[i as int] {
                Some(s) => Some(s@),
                None => None::<ServerView>,
            });
        }
        apply_fetch(&mut entry, outcome);
        result.push(entry);
        i = i + 1;
    }
    *working = result;
    proof {
        assert(fleet_view(final(working)@) =~= merge_sweep(hosts0, outs));
    }
}

/// The working copy after a whole run of sweeps, applied oldest first.
pub open spec fn merge_rounds(
    hosts: Seq<ServerView>,
    rounds: Seq<Seq<Option<ServerView>>>,
) -> Seq<ServerView>
    decreases rounds.len(),
{
    if rounds.len() == 0 {
        hosts
    } else {
        merge_rounds(merge_sweep(hosts, rounds[0]), rounds.drop_first())
    }
}

/// Sweeps change neither the number of hosts nor any host's endpoint.
pub proof fn lemma_rounds_preserve_endpoints(
    hosts: Seq<ServerView>,
    rounds: Seq<Seq<Option<ServerView>>>,
)
    ensures
        merge_rounds(hosts, rounds).len() == hosts.len(),
        forall|i: int|
            0 <= i < hosts.len() ==> #[trigger] merge_rounds(hosts, rounds)[i].endpoint
                == hosts[i].endpoint,
    decreases rounds.len(),
{
    if rounds.len() > 0 {
        lemma_rounds_preserve_endpoints(merge_sweep(hosts, rounds[0]), rounds.drop_first());
    }
}

/// Failure isolation: a host whose fetch fails in every sweep still holds its
/// initial snapshot afterwards, however many sweeps ran and whatever happened
/// to the other hosts; a host whose last fetch succeeded holds that fetch's
/// snapshot (under its own endpoint).
pub proof fn lemma_failure_isolation(
    hosts: Seq<ServerView>,
    rounds: Seq<Seq<Option<ServerView>>>,
    i: int,
)
    requires
        0 <= i < hosts.len(),
    ensures
        (forall|k: int| 0 <= k < rounds.len() ==> #[trigger] rounds[k][i] is None) ==> merge_rounds(
            hosts,
            rounds,
        )[i] == hosts[i],
        rounds.len() > 0 && rounds.last()[i] is Some ==> merge_rounds(hosts, rounds)[i]
            == rounds.last()[i]->0.with_endpoint(hosts[i].endpoint),
    decreases rounds.len(),
{
    if rounds.len() > 0 {
        let hosts1 = merge_sweep(hosts, rounds[0]);
        assert(hosts1[i] == merge_outcome(hosts[i], rounds[0][i]));
        assert(hosts1[i].endpoint == hosts[i].endpoint);
        lemma_failure_isolation(hosts1, rounds.drop_first(), i);
        if rounds.len() > 1 {
            assert(rounds.drop_first().last() == rounds.last());
        }
    }
}

} // verus!
