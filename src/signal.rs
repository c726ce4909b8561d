use vstd::prelude::*;

use crate::level::{ground, level_of, normalize, Level};

verus! {

/// One declared trace variable and its recorded history.
#[derive(Clone, Debug)]
pub struct Signal {
    /// Display label, as declared.
    pub name: String,
    /// The short token that value changes use to name this signal.
    pub identifier: String,
    /// Declared bit width.
    pub width: usize,
    /// Value changes as `(timestamp, raw value token)`, in file order.
    pub values: Vec<(u64, String)>,
    /// Display samples as `(time, level)`, derived from `values`.
    pub chart_data: Vec<(u64, Level)>,
}

/// A change history as plain values.
pub open spec fn changes_view(v: Seq<(u64, String)>) -> Seq<(u64, Seq<char>)> {
    v.map_values(|p: (u64, String)| (p.0, p.1@))
}

/// How many changes, counted from the first, are recorded at or before `t`: the changes are
/// read in order and reading stops at the first one recorded after `t`.
pub open spec fn hold_count(c: Seq<(u64, Seq<char>)>, t: int) -> nat
    decreases c.len(),
{
    if c.len() == 0 || c[0].0 > t {
        0
    } else {
        1 + hold_count(c.drop_first(), t)
    }
}

/// The raw value held at time `t`: that of the last change counted by `hold_count`, or the
/// unknown token `x` when there is none.
pub open spec fn value_at_spec(c: Seq<(u64, Seq<char>)>, t: int) -> Seq<char> {
    let k = hold_count(c, t);
    if k == 0 {
        seq!['x']
    } else {
        c[k - 1].1
    }
}

/// The level held at time `t`, as the display draws it: `ground()` before any change.
pub open spec fn held_level(c: Seq<(u64, Seq<char>)>, width: usize, t: int) -> Level {
    let k = hold_count(c, t);
    if k == 0 {
        ground()
    } else {
        level_of(c[k - 1].1, width)
    }
}

/// The distance between two display samples of a trace that ends at `max_time`.
pub open spec fn sample_step(max_time: u64) -> u64 {
    if max_time / 1000 > 1 {
        (max_time / 1000) as u64
    } else {
        1
    }
}

/// The display samples: one at every multiple of `sample_step(max_time)` up to `max_time`,
/// each with the level held then; none for a signal without changes.
pub open spec fn samples(c: Seq<(u64, Seq<char>)>, width: usize, max_time: u64) -> Seq<
    (u64, Level),
> {
    let step = sample_step(max_time);
    if c.len() == 0 {
        seq![]
    } else {
        Seq::new(
            (max_time / step + 1) as nat,
            |i: int| ((i * step) as u64, held_level(c, width, i * step)),
        )
    }
}

/// `hold_count` is the length of the longest prefix recorded at or before `t`.
pub proof fn lemma_hold_count_is(c: Seq<(u64, Seq<char>)>, t: int, k: int)
    requires
        0 <= k <= c.len(),
        forall|j: int| 0 <= j < k ==> #[trigger] c[j].0 <= t,
        k == c.len() || c[k].0 > t,
    ensures
        hold_count(c, t) == k,
    decreases c.len(),
{
    if k > 0 {
        let d = c.drop_first();
        assert forall|j: int| 0 <= j < k - 1 implies #[trigger] d[j].0 <= t by {
            assert(d[j] == c[j + 1]);
        }
        lemma_hold_count_is(d, t, k - 1);
    }
}

/// The changes that `hold_count` counts are all recorded at or before `t`.
pub proof fn lemma_hold_count_prefix(c: Seq<(u64, Seq<char>)>, t: int)
    ensures
        hold_count(c, t) <= c.len(),
        forall|j: int| 0 <= j < hold_count(c, t) ==> #[trigger] c[j].0 <= t,
        hold_count(c, t) < c.len() ==> c[hold_count(c, t) as int].0 > t,
    decreases c.len(),
{
    if c.len() > 0 && c[0].0 <= t {
        let d = c.drop_first();
        lemma_hold_count_prefix(d, t);
        assert forall|j: int| 0 <= j < hold_count(c, t) implies #[trigger] c[j].0 <= t by {
            if j > 0 {
                assert(c[j] == d[j - 1]);
            }
        }
    }
}

/// The raw value token of `values` at time `time`: that of the last change of the leading run
/// recorded at or before `time`, or `x` when the first change comes later.
pub fn value_at(values: &Vec<(u64, String)>, time: u64) -> (r: String)
    ensures
        r@ == value_at_spec(changes_view(values@), time as int),
{
    let ghost c = changes_view(values@);
    proof {
        reveal_strlit("x");
    }
    let mut current = String::from_str("x");
    let mut k: usize = 0;
    while k < values.len() && values[k].0 <= time
        invariant
            k <= values.len(),
            c == changes_view(values@),
            forall|j: int| 0 <= j < k ==> #[trigger] c[j].0 <= time,
            current@ == (if k == 0 {
                seq!['x']
            } else {
                c[k - 1].1
            }),
        decreases values.len() - k,
    {
        current = values[k].1.clone();
        k = k + 1;
    }
    proof {
        lemma_hold_count_is(c, time as int, k as int);
    }
    current
}

/// The display samples of a signal of `width` bits whose changes are `values`, in a trace that
/// ends at `max_time`.
pub fn resample(values: &Vec<(u64, String)>, width: usize, max_time: u64) -> (r: Vec<(u64, Level)>)
    ensures
        r@ == samples(changes_view(values@), width, max_time),
{
    let ghost c = changes_view(values@);
    let mut out: Vec<(u64, Level)> = Vec::new();
    if values.len() == 0 {
        assert(out@ =~= samples(c, width, max_time));
        return out;
    }
    let step: u64 = if max_time / 1000 > 1 {
        max_time / 1000
    } else {
        1
    };
    let last = max_time / step;
    assert(last * step <= max_time) by (nonlinear_arith)
        requires
            last == max_time / step,
            step >= 1,
    ;
    assert(step == 1 ==> max_time < 2000);
    assert(last < u64::MAX) by (nonlinear_arith)
        requires
            last * step <= max_time,
            step >= 1,
            step == 1 ==> max_time < 2000,
            max_time <= u64::MAX,
    ;
    let mut i: u64 = 0;
    let mut cursor: usize = 0;
    let mut current = Level { num: 0, den: 1 };
    while i <= last
        invariant
            step == sample_step(max_time),
            last == max_time / step,
            last * step <= max_time,
            last < u64::MAX,
            c == changes_view(values@),
            values.len() > 0,
            i <= last + 1,
            cursor <= values.len(),
            forall|j: int| 0 <= j < cursor ==> #[trigger] c[j].0 <= i * step,
            current == (if cursor == 0 {
                ground()
            } else {
                level_of(c[cursor - 1].1, width)
            }),
            out@.len() == i,
            forall|j: int|
                0 <= j < i ==> #[trigger] out@[j] == ((j * step) as u64, held_level(
                    c,
                    width,
                    j * step,
                )),
        decreases last + 1 - i,
    {
        assert(i * step <= last * step) by (nonlinear_arith)
            requires
                i <= last,
        ;
        let t = i * step;
        while cursor < values.len() && values[cursor].0 <= t
            invariant
                cursor <= values.len(),
                c == changes_view(values@),
                forall|j: int| 0 <= j < cursor ==> #[trigger] c[j].0 <= t,
                current == (if cursor == 0 {
                    ground()
                } else {
                    level_of(c[cursor - 1].1, width)
                }),
            decreases values.len() - cursor,
        {
            current = normalize(values[cursor].1.as_str(), width);
            cursor = cursor + 1;
        }
        proof {
            lemma_hold_count_is(c, t as int, cursor as int);
        }
        out.push((t, current));
        assert(t + step == (i + 1) * step) by (nonlinear_arith)
            requires
                t == i * step,
        ;
        i = i + 1;
    }
    assert(out@ =~= samples(c, width, max_time));
    out
}


/// The display samples of a signal with changes come every `sample_step(max_time)` from 0
/// through `max_time`: at most 2000 of them whatever `max_time` is, and at most 1001 when
/// `max_time` is at most 1000 or its remainder by 1000 is below its thousandth part (for
/// instance 100 or 10,000,000).
pub proof fn lemma_sample_count(c: Seq<(u64, Seq<char>)>, width: usize, max_time: u64)
    requires
        c.len() > 0,
    ensures
        samples(c, width, max_time).len() == max_time / sample_step(max_time) + 1,
        samples(c, width, max_time).len() <= 2000,
        max_time <= 1000 || max_time % 1000 < max_time / 1000 ==> samples(
            c,
            width,
            max_time,
        ).len() <= 1001,
{
    let m = max_time as int;
    let step = sample_step(max_time) as int;
    if m / 1000 > 1 {
        let k = m / 1000;
        let r = m % 1000;
        assert(m == 1000 * k + r);
        assert(m / k == 1000 + r / k) by {
            assert((r + k * 1000) / k == r / k + 1000) by {
                vstd::arithmetic::div_mod::lemma_hoist_over_denominator(r, 1000, k as nat);
            }
            assert(r + k * 1000 == m) by (nonlinear_arith)
                requires
                    m == 1000 * k + r,
            ;
        }
        assert(r / k < 500) by {
            vstd::arithmetic::div_mod::lemma_div_is_ordered(r, 999, k);
            vstd::arithmetic::div_mod::lemma_div_is_ordered_by_denominator(999, 2, k);
        }
        assert(r < k ==> r / k == 0) by {
            if r < k {
                vstd::arithmetic::div_mod::lemma_basic_div(r, k);
            }
        }
    }
}


/// Resampling is a function of the changes, the width and the trace's end: two resamplings of
/// equal inputs give equal samples.
pub proof fn lemma_resample_deterministic(
    c1: Seq<(u64, Seq<char>)>,
    c2: Seq<(u64, Seq<char>)>,
    width: usize,
    max_time: u64,
)
    requires
        c1 == c2,
    ensures
        samples(c1, width, max_time) == samples(c2, width, max_time),
{
}

/// Whether the timestamps of the changes `c` never decrease.
pub open spec fn changes_sorted(c: Seq<(u64, Seq<char>)>) -> bool {
    forall|a: int, b: int| 0 <= a < b < c.len() ==> #[trigger] c[a].0 <= #[trigger] c[b].0
}

/// Zero-order hold: between one change of sorted changes and the next, the level held, and
/// the value a point query gives, are those of the earlier change.
pub proof fn lemma_zero_order_hold(c: Seq<(u64, Seq<char>)>, width: usize, k: int, t: int)
    requires
        changes_sorted(c),
        0 <= k < c.len(),
        c[k].0 <= t,
        k + 1 == c.len() || t < c[k + 1].0,
    ensures
        held_level(c, width, t) == level_of(c[k].1, width),
        value_at_spec(c, t) == c[k].1,
{
    assert forall|j: int| 0 <= j < k + 1 implies #[trigger] c[j].0 <= t by {
        if j < k {
            assert(c[j].0 <= c[k].0);
        }
    }
    lemma_hold_count_is(c, t, k + 1);
}

/// Before a signal's first change, a point query gives the unknown token `x` and the display
/// holds the ground level.
pub proof fn lemma_before_first_change(c: Seq<(u64, Seq<char>)>, width: usize, t: int)
    requires
        c.len() == 0 || t < c[0].0,
    ensures
        value_at_spec(c, t) == seq!['x'],
        held_level(c, width, t) == ground(),
{
}

} // verus!
