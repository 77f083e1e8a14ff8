//! The window aggregator: turns an ascending sequence of priced half-hour
//! slots into one-hour candidate windows and selects the cheapest one.

use vstd::prelude::*;

verus! {

/// One priced half-hour interval from the rate source. Instants are plain
/// timestamps (seconds); the price is an exact fixed-point integer (the
/// caller picks the scale, e.g. thousandths of a penny), so combined prices
/// are exact sums.
#[derive(Debug, Clone, Copy, PartialEq, Eq, Structural)]
pub struct Slot {
    pub start: i64,
    pub end: i64,
    pub price: i32,
}

/// Two adjacent slots combined into a one-hour candidate period: it runs
/// from the first slot's start to the second slot's end and costs the sum of
/// their prices.
#[derive(Debug, Clone, Copy, PartialEq, Eq, Structural)]
pub struct Window {
    pub start: i64,
    pub end: i64,
    pub combined_price: i64,
}

/// Why no window could be selected.
#[derive(Debug, Clone, Copy, PartialEq, Eq, Structural)]
pub enum AggregateError {
    /// Fewer than three slots were supplied, so the windowing range is empty.
    InsufficientData,
}

/// Combined price of the window that starts at slot `i`: slot `i` paired
/// with slot `i + 1`.
pub open spec fn window_price(s: Seq<Slot>, i: int) -> int {
    s[i].price + s[i + 1].price
}

/// The window formed by slot `i` and slot `i + 1`.
pub open spec fn window_at(s: Seq<Slot>, i: int) -> Window {
    Window {
        start: s[i].start,
        end: s[i + 1].end,
        combined_price: window_price(s, i) as i64,
    }
}

/// First-wins start index of the cheapest window among start indices
/// `1 ..= k`: a later window replaces the incumbent only when strictly
/// cheaper.
pub open spec fn best_start(s: Seq<Slot>, k: int) -> int
    decreases k,
{
    if k <= 1 {
        1
    } else {
        let b = best_start(s, k - 1);
        if window_price(s, k) < window_price(s, b) {
            k
        } else {
            b
        }
    }
}

/// Start index of the cheapest window over the whole series. The first and
/// the last slot are never a window start, so candidates run from 1 through
/// `len - 2`.
pub open spec fn cheapest_start(s: Seq<Slot>) -> int {
    best_start(s, s.len() - 2)
}

/// Finds the cheapest one-hour window of an ascending slot sequence.
///
/// With at least three slots it returns the window at `cheapest_start`,
/// i.e. the minimal-price window over start indices `1 ..= len - 2` with
/// ties broken in favour of the earliest start; with fewer it reports
/// `InsufficientData`.
pub fn cheapest_hour(slots: &Vec<Slot>) -> (r: Result<Window, AggregateError>)
    ensures
        slots@.len() >= 3 ==> r == Ok::<Window, AggregateError>(
            window_at(slots@, cheapest_start(slots@)),
        ),
        slots@.len() < 3 ==> r == Err::<Window, AggregateError>(AggregateError::InsufficientData),
{
    let n = slots.len();
    if n < 3 {
        return Err(AggregateError::InsufficientData);
    }
    let mut best = Window {
        start: slots[1].start,
        end: slots[2].end,
        combined_price: slots[1].price as i64 + slots[2].price as i64,
    };
    let mut i: usize = 2;
    while i <= n - 2
        invariant
            3 <= n,
            n == slots@.len(),
            2 <= i <= n - 1,
            best == window_at(slots@, best_start(slots@, i - 1)),
        decreases n - i,
    {
        let p: i64 = slots[i].price as i64 + slots[i + 1].price as i64;
        if p < best.combined_price {
            best = Window { start: slots[i].start, end: slots[i + 1].end, combined_price: p };
        }
        i = i + 1;
    }
    Ok(best)
}

/// Every valid one-hour window of the series, in start order: the window at
/// each start index `1 ..= len - 2`. With fewer than three slots the set is
/// empty.
pub fn windows(slots: &Vec<Slot>) -> (r: Vec<Window>)
    ensures
        r@.len() == if slots@.len() >= 3 {
            slots@.len() - 2
        } else {
            0
        },
        forall|j: int| 0 <= j < r@.len() ==> r@[j] == window_at(slots@, j + 1),
{
    let n = slots.len();
    let mut out: Vec<Window> = Vec::new();
    if n < 3 {
        return out;
    }
    let mut i: usize = 1;
    while i <= n - 2
        invariant
            3 <= n,
            n == slots@.len(),
            1 <= i <= n - 1,
            out@.len() == i - 1,
            forall|j: int| 0 <= j < out@.len() ==> out@[j] == window_at(slots@, j + 1),
        decreases n - i,
    {
        out.push(
            Window {
                start: slots[i].start,
                end: slots[i + 1].end,
                combined_price: slots[i].price as i64 + slots[i + 1].price as i64,
            },
        );
        i = i + 1;
    }
    out
}

/// Reorders a payload to the opposite order; the rate source publishes slots
/// newest first, and windowing wants them ascending.
pub fn reverse_slots(slots: &Vec<Slot>) -> (r: Vec<Slot>)
    ensures
        r@ == slots@.reverse(),
{
    let n = slots.len();
    let mut out: Vec<Slot> = Vec::new();
    let mut i: usize = 0;
    while i < n
        invariant
            i <= n,
            n == slots@.len(),
            out@.len() == i,
            forall|j: int| 0 <= j < i ==> out@[j] == slots@[n - 1 - j],
        decreases n - i,
    {
        out.push(slots[n - 1 - i]);
        i = i + 1;
    }
    proof {
        assert(out@ =~= slots@.reverse());
    }
    out
}

/// A start index whose window is minimal in price over all starts
/// `1 ..= len - 2`, and is the earliest to reach that price: every earlier
/// window is strictly more expensive.
pub open spec fn is_first_minimal_start(s: Seq<Slot>, i: int) -> bool {
    &&& 1 <= i <= s.len() - 2
    &&& forall|j: int| 1 <= j <= s.len() - 2 ==> window_price(s, i) <= #[trigger] window_price(s, j)
    &&& forall|j: int| 1 <= j < i ==> window_price(s, i) < #[trigger] window_price(s, j)
}

proof fn lemma_best_start_props(s: Seq<Slot>, k: int)
    requires
        1 <= k,
    ensures
        1 <= best_start(s, k) <= k,
        forall|j: int|
            1 <= j <= k ==> window_price(s, best_start(s, k)) <= #[trigger] window_price(s, j),
        forall|j: int|
            1 <= j < best_start(s, k) ==> window_price(s, best_start(s, k)) < #[trigger] window_price(
                s,
                j,
            ),
    decreases k,
{
    if k > 1 {
        lemma_best_start_props(s, k - 1);
    }
}

/// Law: the selected start is a first-minimal start — its window's combined
/// price is no greater than that of any other derivable window (start
/// indices `1 ..= len - 2`), and on a tie the earliest start wins, every
/// earlier window being strictly more expensive.
pub proof fn lemma_cheapest_start_is_first_minimal(s: Seq<Slot>)
    requires
        s.len() >= 3,
    ensures
        is_first_minimal_start(s, cheapest_start(s)),
{
    lemma_best_start_props(s, s.len() - 2);
}

/// Law: the cheapest window's combined price is no greater than any other
/// derivable window's price.
pub proof fn lemma_cheapest_is_minimal(s: Seq<Slot>, j: int)
    requires
        s.len() >= 3,
        1 <= j <= s.len() - 2,
    ensures
        window_price(s, cheapest_start(s)) <= window_price(s, j),
{
    lemma_cheapest_start_is_first_minimal(s);
}

/// Law: ties break toward the earlier window — every window that starts
/// before the selected one is strictly more expensive, so an equally cheap
/// window can only start at or after the selected start.
pub proof fn lemma_cheapest_is_first(s: Seq<Slot>, j: int)
    requires
        s.len() >= 3,
        1 <= j < cheapest_start(s),
    ensures
        window_price(s, j) > window_price(s, cheapest_start(s)),
{
    lemma_cheapest_start_is_first_minimal(s);
}

/// Law: only one start index is first-minimal, so the window `cheapest_hour`
/// is bound to by its contract is uniquely determined by the input — two
/// runs on the same slots select the same window.
pub proof fn lemma_first_minimal_start_unique(s: Seq<Slot>, i1: int, i2: int)
    requires
        is_first_minimal_start(s, i1),
        is_first_minimal_start(s, i2),
    ensures
        i1 == i2,
{
    if i1 < i2 {
        assert(window_price(s, i2) < window_price(s, i1));
        assert(window_price(s, i1) <= window_price(s, i2));
    }
    if i2 < i1 {
        assert(window_price(s, i1) < window_price(s, i2));
        assert(window_price(s, i2) <= window_price(s, i1));
    }
}

/// Law: reversing a sequence twice gives back the original, so re-ascending
/// a reversed ascending payload and then windowing selects the same window
/// as windowing the original ascending sequence directly.
pub proof fn lemma_reverse_round_trip(s: Seq<Slot>)
    ensures
        s.reverse().reverse() == s,
        cheapest_start(s.reverse().reverse()) == cheapest_start(s),
{
    assert(s.reverse().reverse() =~= s);
}

} // verus!
