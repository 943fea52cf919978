//! The metrics deriver's mathematics: fixed-capacity rolling series that
//! evict their oldest samples first, percentage and throughput samples drawn
//! from a fleet copy, and the previous-counter baselines that network rates
//! are measured against. The series for host `i` sits at position `i` of its
//! series list, keyed by the host's position in the fleet sequence.

use vstd::prelude::*;
use crate::server::ServerView;
use crate::util::percentage_spec;

verus! {

/// The mathematical value of a series list: one sequence of samples per
/// host.
pub open spec fn charts_view(v: Vec<Vec<u64>>) -> Seq<Seq<u64>> {
    v@.map_values(|s: Vec<u64>| s@)
}

/// `s` with `v` appended and then the oldest entries dropped until at most
/// `cap` remain.
pub open spec fn push_bounded(s: Seq<u64>, v: u64, cap: int) -> Seq<u64> {
    let t = s.push(v);
    if t.len() <= cap {
        t
    } else {
        t.subrange(t.len() - cap, t.len() as int)
    }
}

/// `series` extended with fresh empty series until it has one for each of
/// `n` hosts.
pub open spec fn pad_series(series: Seq<Seq<u64>>, n: int) -> Seq<Seq<u64>> {
    if series.len() >= n {
        series
    } else {
        series + Seq::new((n - series.len()) as nat, |i: int| Seq::<u64>::empty())
    }
}

/// Every series holds at most `cap` samples.
pub open spec fn series_bounded(series: Seq<Seq<u64>>, cap: int) -> bool {
    forall|i: int| 0 <= i < series.len() ==> (#[trigger] series[i]).len() <= cap
}

/// The CPU sample taken from a host: its usage in whole percent.
pub open spec fn cpu_sample(h: ServerView) -> u64 {
    h.cpu_usage / 100
}

/// The memory sample taken from a host: used memory as a percentage of total
/// memory, 0 while the host is an unfetched placeholder.
pub open spec fn ram_sample(h: ServerView) -> u64 {
    percentage_spec(h.used_memory as int, h.total_memory as int) as u64
}

/// A throughput sample in KB/s: the growth of a cumulative byte counter from
/// `prev` to `cur`, spread over `window_ms` milliseconds. A counter that
/// moved backwards counts as no growth.
pub open spec fn rate_kb_per_s(cur: u64, prev: u64, window_ms: u64) -> int {
    let delta: int = if cur >= prev {
        cur - prev
    } else {
        0
    };
    delta * 1000 / (window_ms * 1024)
}

/// The same sample as a storable value.
pub open spec fn rate_sample(cur: u64, prev: u64, window_ms: u64) -> u64 {
    rate_kb_per_s(cur, prev, window_ms) as u64
}

/// Whether host `i` has a usable rate baseline: a previous value recorded for
/// both directions, and neither still the unfetched-placeholder reading 0.
pub open spec fn baseline_set(prev_rx: Seq<u64>, prev_tx: Seq<u64>, i: int) -> bool {
    &&& i < prev_rx.len()
    &&& i < prev_tx.len()
    &&& prev_rx[i] != 0
    &&& prev_tx[i] != 0
}

/// One tick of a value-series list: a series for every host, and one sample
/// appended per host under the capacity bound.
pub open spec fn value_series_after(
    series: Seq<Seq<u64>>,
    samples: Seq<u64>,
    cap: int,
) -> Seq<Seq<u64>> {
    let p = pad_series(series, samples.len() as int);
    Seq::new(
        p.len(),
        |i: int|
            if i < samples.len() {
                push_bounded(p[i], samples[i], cap)
            } else {
                p[i]
            },
    )
}

/// One tick of the CPU series.
pub open spec fn cpu_series_after(
    series: Seq<Seq<u64>>,
    hosts: Seq<ServerView>,
    cap: int,
) -> Seq<Seq<u64>> {
    value_series_after(series, hosts.map_values(|h: ServerView| cpu_sample(h)), cap)
}

/// One tick of the memory series.
pub open spec fn ram_series_after(
    series: Seq<Seq<u64>>,
    hosts: Seq<ServerView>,
    cap: int,
) -> Seq<Seq<u64>> {
    value_series_after(series, hosts.map_values(|h: ServerView| ram_sample(h)), cap)
}

/// One tick of a rate-series list: a series for every host, a sample only
/// for hosts with a usable baseline — a host without one gets nothing, so
/// its series stays as it was.
pub open spec fn rate_series_after(
    series: Seq<Seq<u64>>,
    counters: Seq<u64>,
    prev_rx: Seq<u64>,
    prev_tx: Seq<u64>,
    prev_own: Seq<u64>,
    window_ms: u64,
    cap: int,
) -> Seq<Seq<u64>> {
    let p = pad_series(series, counters.len() as int);
    Seq::new(
        p.len(),
        |i: int|
            if i < counters.len() && baseline_set(prev_rx, prev_tx, i) {
                push_bounded(p[i], rate_sample(counters[i], prev_own[i], window_ms), cap)
            } else {
                p[i]
            },
    )
}

/// The cumulative received-bytes counters of a fleet, in host order.
pub open spec fn rx_counters(hosts: Seq<ServerView>) -> Seq<u64> {
    hosts.map_values(|h: ServerView| h.bytes_received)
}

/// The cumulative transmitted-bytes counters of a fleet, in host order.
pub open spec fn tx_counters(hosts: Seq<ServerView>) -> Seq<u64> {
    hosts.map_values(|h: ServerView| h.bytes_transmitted)
}

/// The baselines after recording `counters`: one entry per counter, entries
/// beyond the fleet keeping their old value.
pub open spec fn baselines_after(prev: Seq<u64>, counters: Seq<u64>) -> Seq<u64> {
    Seq::new(
        vstd::math::max(prev.len() as int, counters.len() as int) as nat,
        |i: int|
            if i < counters.len() {
                counters[i]
            } else {
                prev[i]
            },
    )
}

/// A fresh series holding `s` with `v` appended and the oldest entries beyond
/// `cap` dropped.
pub fn bounded_push(series: &Vec<u64>, v: u64, cap: usize) -> (r: Vec<u64>)
    ensures
        r@ == push_bounded(series@, v, cap as int),
        r@.len() <= cap,
{
    let len = series.len();
    let mut r: Vec<u64> = Vec::new();
    if cap > 0 {
        let start = if len >= cap {
            len - cap + 1
        } else {
            0
        };
        let mut j = start;
        while j < len
            invariant
                start <= j <= len,
                len == series@.len(),
                r@ =~= series@.subrange(start as int, j as int),
            decreases len - j,
        {
            let x = series[j];
            r.push(x);
            j = j + 1;
        }
        r.push(v);
        proof {
            assert(r@ =~= push_bounded(series@, v, cap as int));
        }
    } else {
        proof {
            assert(r@ =~= push_bounded(series@, v, 0));
        }
    }
    r
}

/// The throughput sample for one direction of one host.
pub fn compute_rate(cur: u64, prev: u64, window_ms: u64) -> (r: u64)
    requires
        window_ms >= 1,
    ensures
        r == rate_kb_per_s(cur, prev, window_ms),
{
    let delta: u64 = if cur >= prev {
        cur - prev
    } else {
        0
    };
    let wide: u128 = (delta as u128) * 1000 / ((window_ms as u128) * 1024);
    proof {
        assert(delta * 1000 / ((window_ms as int) * 1024) <= u64::MAX) by (nonlinear_arith)
            requires
                0 <= delta <= u64::MAX,
                window_ms >= 1,
        ;
    }
    wide as u64
}

/// Padding one more empty series onto an already padded list pads it one
/// step further.
pub proof fn lemma_pad_series_extend(series: Seq<Seq<u64>>, padded: Seq<Seq<u64>>, k: int)
    requires
        padded == pad_series(series, k),
        series.len() <= k,
    ensures
        padded.push(Seq::<u64>::empty()) == pad_series(series, k + 1),
{
    assert(padded.push(Seq::<u64>::empty()) =~= pad_series(series, k + 1)) by {
        assert forall|j: int|
            0 <= j < k + 1 implies padded.push(Seq::<u64>::empty())[j] == pad_series(
            series,
            k + 1,
        )[j] by {
            if j < series.len() {
                assert(padded[j] == series[j]);
                assert(pad_series(series, k + 1)[j] == series[j]);
            } else if j < k {
                assert(padded[j] == Seq::<u64>::empty());
                assert(pad_series(series, k + 1)[j] == Seq::<u64>::empty());
            } else {
                assert(pad_series(series, k + 1)[j] == Seq::<u64>::empty());
            }
        }
    }
}

/// Rolling series are bounded: when every series respects the capacity
/// before a tick, every series still respects it afterwards, whatever
/// samples arrive and however the fleet grew.
pub proof fn lemma_value_series_stay_bounded(series: Seq<Seq<u64>>, samples: Seq<u64>, cap: int)
    requires
        series_bounded(series, cap),
        cap >= 0,
    ensures
        series_bounded(value_series_after(series, samples, cap), cap),
{
    let p = pad_series(series, samples.len() as int);
    let r = value_series_after(series, samples, cap);
    assert forall|i: int| 0 <= i < r.len() implies (#[trigger] r[i]).len() <= cap by {
        assert(p[i].len() <= cap);
        if i < samples.len() {
            assert(r[i] == push_bounded(p[i], samples[i], cap));
        }
    }
}

/// The same bound for the rate series, where some hosts may receive no
/// sample at all.
pub proof fn lemma_rate_series_stay_bounded(
    series: Seq<Seq<u64>>,
    counters: Seq<u64>,
    prev_rx: Seq<u64>,
    prev_tx: Seq<u64>,
    prev_own: Seq<u64>,
    window_ms: u64,
    cap: int,
)
    requires
        series_bounded(series, cap),
        cap >= 0,
    ensures
        series_bounded(
            rate_series_after(series, counters, prev_rx, prev_tx, prev_own, window_ms, cap),
            cap,
        ),
{
    let p = pad_series(series, counters.len() as int);
    let r = rate_series_after(series, counters, prev_rx, prev_tx, prev_own, window_ms, cap);
    assert forall|i: int| 0 <= i < r.len() implies (#[trigger] r[i]).len() <= cap by {
        assert(p[i].len() <= cap);
        if i < counters.len() && baseline_set(prev_rx, prev_tx, i) {
            assert(r[i] == push_bounded(p[i], rate_sample(counters[i], prev_own[i], window_ms), cap));
        }
    }
}

/// Growing a series list never changes an existing series, and a host with
/// no usable baseline keeps its rate series exactly as it was: in
/// particular, the first rate sample after a host's first successful fetch
/// is suppressed, because the baselines recorded while the host was still a
/// placeholder are 0.
pub proof fn lemma_rate_sample_suppressed(
    series: Seq<Seq<u64>>,
    counters: Seq<u64>,
    prev_rx: Seq<u64>,
    prev_tx: Seq<u64>,
    prev_own: Seq<u64>,
    window_ms: u64,
    cap: int,
    i: int,
)
    requires
        0 <= i < counters.len(),
        !baseline_set(prev_rx, prev_tx, i),
    ensures
        rate_series_after(series, counters, prev_rx, prev_tx, prev_own, window_ms, cap)[i]
            == pad_series(series, counters.len() as int)[i],
        i >= series.len() ==> rate_series_after(
            series,
            counters,
            prev_rx,
            prev_tx,
            prev_own,
            window_ms,
            cap,
        )[i] == Seq::<u64>::empty(),
{
}

/// The first rate sample after a host's first successful fetch is
/// suppressed. A host `i` whose baseline is still unset gets no rate sample
/// this tick — both its rate series stay exactly as they were, still empty
/// if they were empty — and while its stored snapshot is the placeholder,
/// recording baselines leaves its baseline unset too. So when a host's
/// first real snapshot arrives, no sample is emitted that tick or the one
/// after: its rate series stay empty until a baseline taken from a real
/// snapshot exists.
pub proof fn lemma_rate_suppressed_until_baseline(
    rx_series: Seq<Seq<u64>>,
    tx_series: Seq<Seq<u64>>,
    hosts: Seq<ServerView>,
    prev_rx: Seq<u64>,
    prev_tx: Seq<u64>,
    window_ms: u64,
    cap: int,
    i: int,
)
    requires
        0 <= i < hosts.len(),
        !baseline_set(prev_rx, prev_tx, i),
    ensures
        rate_series_after(rx_series, rx_counters(hosts), prev_rx, prev_tx, prev_rx, window_ms, cap)[i]
            == pad_series(rx_series, hosts.len() as int)[i],
        rate_series_after(tx_series, tx_counters(hosts), prev_rx, prev_tx, prev_tx, window_ms, cap)[i]
            == pad_series(tx_series, hosts.len() as int)[i],
        i >= rx_series.len() ==> rate_series_after(
            rx_series,
            rx_counters(hosts),
            prev_rx,
            prev_tx,
            prev_rx,
            window_ms,
            cap,
        )[i] == Seq::<u64>::empty(),
        i >= tx_series.len() ==> rate_series_after(
            tx_series,
            tx_counters(hosts),
            prev_rx,
            prev_tx,
            prev_tx,
            window_ms,
            cap,
        )[i] == Seq::<u64>::empty(),
        hosts[i].is_placeholder() ==> !baseline_set(
            baselines_after(prev_rx, rx_counters(hosts)),
            baselines_after(prev_tx, tx_counters(hosts)),
            i,
        ),
{
    lemma_rate_sample_suppressed(
        rx_series,
        rx_counters(hosts),
        prev_rx,
        prev_tx,
        prev_rx,
        window_ms,
        cap,
        i,
    );
    lemma_rate_sample_suppressed(
        tx_series,
        tx_counters(hosts),
        prev_rx,
        prev_tx,
        prev_tx,
        window_ms,
        cap,
        i,
    );
    if hosts[i].is_placeholder() {
        lemma_placeholder_keeps_baseline_unset(hosts, prev_rx, prev_tx, i);
    }
}

/// A host whose stored snapshot is still the placeholder records a baseline
/// of 0 in both directions, which keeps its baseline unusable for the next
/// tick as well.
pub proof fn lemma_placeholder_keeps_baseline_unset(
    hosts: Seq<ServerView>,
    prev_rx: Seq<u64>,
    prev_tx: Seq<u64>,
    i: int,
)
    requires
        0 <= i < hosts.len(),
        hosts[i].is_placeholder(),
    ensures
        !baseline_set(
            baselines_after(prev_rx, rx_counters(hosts)),
            baselines_after(prev_tx, tx_counters(hosts)),
            i,
        ),
{
    assert(rx_counters(hosts)[i] == hosts[i].bytes_received);
}

} // verus!
