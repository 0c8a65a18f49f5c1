//! Hardware-independent rules: barrier status codes and their names, the
//! interpretation of the position and obstacle sensors, and the median of the
//! battery ADC samples.
use vstd::prelude::*;
use vstd::relations::*;
use vstd::seq_lib::*;

verus! {

pub const STATUS_STOPPED: &'static str = "stopped";
pub const STATUS_OPEN: &'static str = "open";
pub const STATUS_CLOSED: &'static str = "closed";
pub const STATUS_OPENING: &'static str = "opening";
pub const STATUS_CLOSING: &'static str = "closing";
pub const STATUS_ERROR: &'static str = "error";

pub const ST_STOPPED: u8 = 0;
pub const ST_OPEN: u8 = 1;
pub const ST_CLOSED: u8 = 2;
pub const ST_OPENING: u8 = 3;
pub const ST_CLOSING: u8 = 4;
pub const ST_ERROR: u8 = 5;

/// A motion request for the barrier; `NoCommand` means that no request is pending.
#[derive(Clone, Copy, Debug, PartialEq, Eq, Structural)]
pub enum Command {
    NoCommand,
    Open,
    Close,
}

/// The name under which a status code is reported; unknown codes read as "stopped".
pub open spec fn status_name(code: u8) -> Seq<char> {
    if code == ST_OPEN {
        STATUS_OPEN@
    } else if code == ST_CLOSED {
        STATUS_CLOSED@
    } else if code == ST_OPENING {
        STATUS_OPENING@
    } else if code == ST_CLOSING {
        STATUS_CLOSING@
    } else if code == ST_ERROR {
        STATUS_ERROR@
    } else {
        STATUS_STOPPED@
    }
}

pub fn status_str(code: u8) -> (name: &'static str)
    ensures
        name@ == status_name(code),
{
    match code {
        ST_OPEN => STATUS_OPEN,
        ST_CLOSED => STATUS_CLOSED,
        ST_OPENING => STATUS_OPENING,
        ST_CLOSING => STATUS_CLOSING,
        ST_ERROR => STATUS_ERROR,
        _ => STATUS_STOPPED,
    }
}

/// The status that the two limit switches report: both active at once is a
/// physically impossible reading and is reported as an error.
pub open spec fn spec_sensor_status(open_active: bool, closed_active: bool) -> u8 {
    if open_active && closed_active {
        ST_ERROR
    } else if open_active {
        ST_OPEN
    } else if closed_active {
        ST_CLOSED
    } else {
        ST_STOPPED
    }
}

pub fn sensor_status(open_active: bool, closed_active: bool) -> (code: u8)
    ensures
        code == spec_sensor_status(open_active, closed_active),
{
    match (open_active, closed_active) {
        (true, true) => ST_ERROR,
        (true, false) => ST_OPEN,
        (false, true) => ST_CLOSED,
        (false, false) => ST_STOPPED,
    }
}

/// Whether the level read on the obstacle input means that the beam is broken.
pub fn obstacle_blocked(pin_is_high: bool, active_high: bool) -> (blocked: bool)
    ensures
        blocked == (pin_is_high == active_high),
{
    pin_is_high == active_high
}

/// The order in which samples are ranked.
pub open spec fn sample_le(a: u16, b: u16) -> bool {
    a <= b
}

/// The order in which samples are ranked, as a relation.
pub open spec fn sample_order() -> spec_fn(u16, u16) -> bool {
    |a: u16, b: u16| sample_le(a, b)
}

/// The samples in ascending order.
pub open spec fn sorted_samples(samples: Seq<u16>) -> Seq<u16> {
    samples.sort_by(sample_order())
}

proof fn lemma_sample_le_total()
    ensures
        total_ordering(sample_order()),
{
}

/// Returns the samples in ascending order (insertion into a sorted vector).
fn sort_samples(samples: &[u16]) -> (sorted: Vec<u16>)
    ensures
        sorted@ == sorted_samples(samples@),
{
    let mut sorted: Vec<u16> = Vec::new();
    let n = samples.len();
    let mut i: usize = 0;
    proof {
        broadcast use vstd::seq_lib::group_to_multiset_ensures;
        assert(samples@.subrange(0, 0) =~= sorted@);
    }
    while i < n
        invariant
            i <= n,
            n == samples@.len(),
            sorted_by(sorted@, sample_order()),
            sorted@.to_multiset() == samples@.subrange(0, i as int).to_multiset(),
        decreases n - i,
    {
        let x = samples[i];
        let mut p: usize = 0;
        while p < sorted.len() && sorted[p] <= x
            invariant
                p <= sorted@.len(),
                sorted_by(sorted@, sample_order()),
                forall|k: int| 0 <= k < p ==> sorted@[k] <= x,
            decreases sorted@.len() - p,
        {
            p = p + 1;
        }
        proof {
            assert forall|k: int| p <= k < sorted@.len() implies x < sorted@[k] by {
                if p < k {
                    assert(sample_order()(sorted@[p as int], sorted@[k]));
                }
            }
        }
        let ghost old_sorted = sorted@;
        sorted.insert(p, x);
        proof {
            assert forall|a: int, b: int| 0 <= a < b < sorted@.len() implies #[trigger] sample_order()(
                sorted@[a],
                sorted@[b],
            ) by {
                if b < p {
                    assert(sample_order()(old_sorted[a], old_sorted[b]));
                } else if b == p {
                } else if a < p {
                    assert(old_sorted[a] <= x);
                } else if a == p {
                } else {
                    assert(sample_order()(old_sorted[a - 1], old_sorted[b - 1]));
                }
            }
            to_multiset_insert(old_sorted, p as int, x);
            assert(samples@.subrange(0, i + 1) == samples@.subrange(0, i as int).push(x));
            to_multiset_build(samples@.subrange(0, i as int), x);
        }
        i = i + 1;
    }
    proof {
        assert(samples@.subrange(0, n as int) == samples@);
        lemma_sample_le_total();
        samples@.lemma_sort_by_ensures(sample_order());
        lemma_sorted_unique(sorted@, sorted_samples(samples@), sample_order());
    }
    sorted
}

/// The median of a set of samples: the element at position `len / 2` of the
/// samples in ascending order (the upper median for an even count), or `None`
/// when there are no samples.
pub fn median(samples: &[u16]) -> (m: Option<u16>)
    ensures
        samples@.len() == 0 ==> m is None,
        samples@.len() > 0 ==> m == Some(
            sorted_samples(samples@)[(samples@.len() / 2) as int],
        ),
{
    if samples.is_empty() {
        return None;
    }
    let sorted = sort_samples(samples);
    proof {
        lemma_sample_le_total();
        samples@.lemma_sort_by_ensures(sample_order());
        vstd::seq_lib::to_multiset_len(samples@);
        vstd::seq_lib::to_multiset_len(sorted@);
    }
    Some(sorted[sorted.len() / 2])
}

} // verus!

verus! {

/// The median is one of the samples.
pub proof fn law_median_is_a_sample(samples: Seq<u16>)
    requires
        samples.len() > 0,
    ensures
        samples.contains(sorted_samples(samples)[(samples.len() / 2) as int]),
{
    lemma_sample_le_total();
    samples.lemma_sort_by_ensures(sample_order());
    let sorted = sorted_samples(samples);
    to_multiset_len(samples);
    to_multiset_len(sorted);
    let m = sorted[(samples.len() / 2) as int];
    assert(sorted.contains(m));
    to_multiset_contains(sorted, m);
    to_multiset_contains(samples, m);
}

/// The median of identical samples is their value.
pub proof fn law_median_of_equal_samples(samples: Seq<u16>, v: u16)
    requires
        samples.len() > 0,
        forall|i: int| 0 <= i < samples.len() ==> samples[i] == v,
    ensures
        sorted_samples(samples)[(samples.len() / 2) as int] == v,
{
    law_median_is_a_sample(samples);
}

/// Every status code is reported by one of the six names, and the name of a
/// sensor reading is never "opening" or "closing".
pub proof fn law_sensor_status_names(open_active: bool, closed_active: bool)
    ensures
        spec_sensor_status(open_active, closed_active) != ST_OPENING,
        spec_sensor_status(open_active, closed_active) != ST_CLOSING,
        open_active && closed_active ==> status_name(spec_sensor_status(open_active, closed_active))
            == STATUS_ERROR@,
{
}

} // verus!
