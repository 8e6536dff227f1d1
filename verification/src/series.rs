//! Timestamped forecast series and nearest-timestamp selection.
//!
//! Both providers answer forecast and history queries with a list of
//! timestamped entries; the observation reported is the entry whose
//! timestamp is closest to the requested instant, the earliest such entry
//! winning a tie.

use vstd::prelude::*;

verus! {

/// One timestamped entry of a forecast or history series, with its
/// readings as the provider sent them (wind still in the provider's
/// unit).
#[derive(Debug, Clone)]
pub struct ForecastEntry {
    pub epoch: i64,
    pub temperature_milli_c: i64,
    pub feels_like_milli_c: i64,
    pub humidity_pct: u8,
    pub condition: Option<String>,
    pub wind_milli: i64,
}

/// The mathematical shape of a `ForecastEntry`.
pub ghost struct EntryV {
    pub epoch: int,
    pub temperature_milli_c: int,
    pub feels_like_milli_c: int,
    pub humidity_pct: int,
    pub condition: Option<Seq<char>>,
    pub wind_milli: int,
}

impl View for ForecastEntry {
    type V = EntryV;

    open spec fn view(&self) -> EntryV {
        EntryV {
            epoch: self.epoch as int,
            temperature_milli_c: self.temperature_milli_c as int,
            feels_like_milli_c: self.feels_like_milli_c as int,
            humidity_pct: self.humidity_pct as int,
            condition: match self.condition {
                Some(ref c) => Some(c@),
                None => None,
            },
            wind_milli: self.wind_milli as int,
        }
    }
}

/// Absolute difference.
pub open spec fn dist(a: int, b: int) -> int {
    if a >= b {
        a - b
    } else {
        b - a
    }
}

/// Index of the earliest entry whose timestamp is nearest the target.
pub open spec fn nearest_in(epochs: Seq<int>, target: int) -> int
    decreases epochs.len(),
{
    if epochs.len() <= 1 {
        0
    } else {
        let best = nearest_in(epochs.drop_last(), target);
        if dist(epochs[best], target) <= dist(epochs.last(), target) {
            best
        } else {
            epochs.len() - 1
        }
    }
}

/// The selected index is in range, minimizes the distance to the target,
/// and is the earliest index to do so.
pub proof fn lemma_nearest_in_minimal(epochs: Seq<int>, target: int)
    requires
        epochs.len() > 0,
    ensures
        0 <= nearest_in(epochs, target) < epochs.len(),
        forall|i: int|
            0 <= i < epochs.len() ==> dist(epochs[nearest_in(epochs, target)], target) <= dist(
                #[trigger] epochs[i],
                target,
            ),
        forall|i: int|
            0 <= i < nearest_in(epochs, target) ==> dist(#[trigger] epochs[i], target) > dist(
                epochs[nearest_in(epochs, target)],
                target,
            ),
    decreases epochs.len(),
{
    if epochs.len() > 1 {
        lemma_nearest_in_minimal(epochs.drop_last(), target);
        assert(forall|i: int| 0 <= i < epochs.len() - 1 ==> epochs.drop_last()[i] == epochs[i]);
    }
}

/// The timestamps of a series, in order.
pub open spec fn epochs_of(entries: Seq<EntryV>) -> Seq<int> {
    entries.map_values(|e: EntryV| e.epoch)
}

/// Select the entry whose timestamp is nearest the target, the earliest
/// entry winning a tie; `None` exactly on an empty series.
pub fn nearest_index(entries: &Vec<ForecastEntry>, target: i64) -> (r: Option<usize>)
    ensures
        r is Some <==> entries@.len() > 0,
        r matches Some(j) ==> j < entries@.len() && j as int == nearest_in(
            epochs_of(entries@.map_values(|e: ForecastEntry| e@)),
            target as int,
        ),
{
    let ghost epochs = epochs_of(entries@.map_values(|e: ForecastEntry| e@));
    proof {
        assert(epochs.len() == entries@.len());
    }
    let n = entries.len();
    if n == 0 {
        return None;
    }
    let mut best: usize = 0;
    let mut best_dist: i128 = {
        let d: i128 = entries[0].epoch as i128 - target as i128;
        if d >= 0 {
            d
        } else {
            -d
        }
    };
    let mut i: usize = 1;
    proof {
        assert(epochs[0] == entries@[0]@.epoch);
        assert(epochs.subrange(0, 1).len() == 1);
        assert(epochs.subrange(0, 1)[0] == epochs[0]);
        assert(nearest_in(epochs.subrange(0, 1), target as int) == 0);
    }
    while i < n
        invariant
            1 <= i <= n,
            n == entries@.len(),
            epochs == epochs_of(entries@.map_values(|e: ForecastEntry| e@)),
            epochs.len() == n,
            forall|k: int| 0 <= k < n ==> epochs[k] == entries@[k]@.epoch,
            best < i,
            best as int == nearest_in(epochs.subrange(0, i as int), target as int),
            best_dist == dist(epochs[best as int], target as int),
        decreases n - i,
    {
        let d: i128 = entries[i].epoch as i128 - target as i128;
        let ad: i128 = if d >= 0 {
            d
        } else {
            -d
        };
        proof {
            let pre = epochs.subrange(0, i as int);
            let cur = epochs.subrange(0, i as int + 1);
            assert(cur.drop_last() =~= pre);
            assert(cur.last() == epochs[i as int]);
            assert(cur[best as int] == epochs[best as int]);
            assert(ad == dist(epochs[i as int], target as int));
        }
        if ad < best_dist {
            best = i;
            best_dist = ad;
        }
        i = i + 1;
    }
    proof {
        assert(epochs.subrange(0, n as int) =~= epochs);
    }
    Some(best)
}

} // verus!
