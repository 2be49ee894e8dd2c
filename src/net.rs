//! The host's received-bytes counter: the sum of the per-interface counters,
//! leaving out the loopback interface.
use vstd::prelude::*;

verus! {

/// The received-bytes counter of one network interface.
pub struct InterfaceCounter {
    pub name: String,
    pub rx_bytes: u64,
}

pub open spec fn loopback_name() -> Seq<char> {
    seq!['l', 'o']
}

/// The sum of the counters of every interface but loopback.
pub open spec fn rx_sum(ifaces: Seq<(Seq<char>, u64)>) -> int
    decreases ifaces.len(),
{
    if ifaces.len() == 0 {
        0
    } else {
        let last = ifaces.last();
        rx_sum(ifaces.drop_last()) + if last.0 == loopback_name() { 0 } else { last.1 as int }
    }
}

pub open spec fn counter_views(v: Seq<InterfaceCounter>) -> Seq<(Seq<char>, u64)> {
    v.map_values(|c: InterfaceCounter| (c.name@, c.rx_bytes))
}

proof fn lemma_rx_sum_monotone(ifaces: Seq<(Seq<char>, u64)>, i: int)
    requires
        0 <= i <= ifaces.len(),
    ensures
        rx_sum(ifaces.take(i)) <= rx_sum(ifaces),
    decreases ifaces.len(),
{
    if i < ifaces.len() {
        assert(ifaces.drop_last().take(i) =~= ifaces.take(i));
        lemma_rx_sum_monotone(ifaces.drop_last(), i);
    } else {
        assert(ifaces.take(i) =~= ifaces);
    }
}

/// The total received bytes over all interfaces but loopback; `None` when
/// the total does not fit in a `u64`.
pub fn total_received(ifaces: &Vec<InterfaceCounter>) -> (r: Option<u64>)
    ensures
        rx_sum(counter_views(ifaces@)) <= u64::MAX ==> r == Some(rx_sum(counter_views(ifaces@)) as u64),
        rx_sum(counter_views(ifaces@)) > u64::MAX ==> r is None,
{
    let ghost views = counter_views(ifaces@);
    let lo = String::from_str("lo");
    proof {
        reveal_strlit("lo");
        assert(lo@ =~= loopback_name());
    }
    let mut total: u64 = 0;
    let mut i: usize = 0;
    while i < ifaces.len()
        invariant
            i <= ifaces@.len(),
            views == counter_views(ifaces@),
            lo@ == loopback_name(),
            total as int == rx_sum(views.take(i as int)),
        decreases ifaces@.len() - i,
    {
        let c = &ifaces[i];
        proof {
            assert(views.take(i + 1).drop_last() =~= views.take(i as int));
            assert(views.take(i + 1).last() == (c.name@, c.rx_bytes));
        }
        if c.name != lo {
            match total.checked_add(c.rx_bytes) {
                Some(t) => {
                    total = t;
                },
                None => {
                    proof {
                        lemma_rx_sum_monotone(views, i + 1);
                    }
                    return None;
                },
            }
        }
        i = i + 1;
    }
    proof {
        assert(views.take(ifaces@.len() as int) =~= views);
    }
    Some(total)
}

} // verus!
