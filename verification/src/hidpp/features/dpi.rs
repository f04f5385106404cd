//! Feature 0x2201 ADJUSTABLE_DPI.
//!
//! function 0 getSensorCount
//! function 1 getSensorDpiList(sensor) -> big-endian u16 list; a value > 0xE000
//!            encodes a step of `(value - 0xE000)` between neighbours (range).
//! function 2 getSensorDpi(sensor)     -> current + default (big-endian u16)
//! function 3 setSensorDpi(sensor, dpi)

use crate::hidpp::protocol::{be16, be16_of, Report};
use vstd::prelude::*;

verus! {

/// The sensor every request addresses.
pub const SENSOR: u8 = 0;

/// A list value above this marks a range step.
pub const RANGE_MARKER: u16 = 0xE000;

/// The lower end assumed for a range that opens the list.
pub const RANGE_FLOOR: u16 = 200;

/// The raw values of a getSensorDpiList reply: big-endian pairs from parameter
/// `1 + 2k` on, up to parameter 15, stopping at the first zero.
pub open spec fn dpi_raw_from(raw: Seq<u8>, k: nat) -> Seq<u16>
    decreases 7 - k,
{
    if k >= 7 || be16_of(raw, (1 + 2 * k) as int) == 0 {
        Seq::empty()
    } else {
        seq![be16_of(raw, (1 + 2 * k) as int)] + dpi_raw_from(raw, k + 1)
    }
}

/// The values `d, d + step, ...` that do not exceed `max`.
pub open spec fn range_from(d: int, step: int, max: int) -> Seq<u16>
    decreases (if d > max { 0 } else { max + 1 - d }),
    when step >= 1
{
    if d > max {
        Seq::empty()
    } else {
        seq![d as u16] + range_from(d + step, step, max)
    }
}

/// Expand the raw list from index `j`, onto what is already decoded in `out`:
/// a plain value stands for itself; a range marker `0xE000 + step` stands for
/// the values from the previous value (or 200) up to the next raw value, in
/// steps of `step`, and consumes that next value.
pub open spec fn expand_from(raw: Seq<u16>, j: nat, out: Seq<u16>) -> Seq<u16>
    decreases raw.len() + 1 - j,
{
    if j >= raw.len() {
        out
    } else if raw[j as int] > RANGE_MARKER {
        let step = raw[j as int] - RANGE_MARKER;
        let min = if out.len() > 0 {
            out.last()
        } else {
            RANGE_FLOOR
        };
        let max = if j + 1 < raw.len() {
            raw[(j + 1) as int]
        } else {
            min
        };
        expand_from(raw, j + 2, out + range_from(min + step, step, max as int))
    } else {
        expand_from(raw, j + 1, out.push(raw[j as int]))
    }
}

/// Every DPI value a getSensorDpiList reply describes, before sorting.
pub open spec fn dpi_values(raw: Seq<u8>) -> Seq<u16> {
    expand_from(dpi_raw_from(raw, 0), 0, Seq::empty())
}

pub open spec fn strictly_increasing(s: Seq<u16>) -> bool {
    forall|i: int, j: int| 0 <= i < j < s.len() ==> s[i] < s[j]
}

/// Read the raw value list of a getSensorDpiList reply.
fn read_raw_list(rep: &Report) -> (r: Vec<u16>)
    ensures
        r@ == dpi_raw_from(rep@, 0),
{
    let mut out: Vec<u16> = Vec::new();
    let mut k: usize = 0;
    while k < 7
        invariant
            k <= 7,
            out@ + dpi_raw_from(rep@, k as nat) == dpi_raw_from(rep@, 0),
        decreases 7 - k,
    {
        let v = be16(rep.param(1 + 2 * k), rep.param(2 + 2 * k));
        if v == 0 {
            assert(dpi_raw_from(rep@, k as nat) == Seq::<u16>::empty());
            assert(out@ =~= out@ + Seq::<u16>::empty());
            return out;
        }
        proof {
            assert(dpi_raw_from(rep@, k as nat) == seq![v] + dpi_raw_from(rep@, (k + 1) as nat));
            assert(out@.push(v) + dpi_raw_from(rep@, (k + 1) as nat) =~= out@ + (seq![v]
                + dpi_raw_from(rep@, (k + 1) as nat)));
        }
        out.push(v);
        k = k + 1;
    }
    assert(dpi_raw_from(rep@, 7) == Seq::<u16>::empty());
    assert(out@ =~= out@ + Seq::<u16>::empty());
    out
}

/// Decode the range markers of the raw list into discrete values, in list
/// order.
fn expand_ranges(raw: &Vec<u16>) -> (out: Vec<u16>)
    ensures
        out@ == expand_from(raw@, 0, Seq::empty()),
{
    let mut out: Vec<u16> = Vec::new();
    let mut j: usize = 0;
    while j < raw.len()
        invariant
            expand_from(raw@, j as nat, out@) == expand_from(raw@, 0, Seq::empty()),
        decreases raw.len() - j,
    {
        let v = raw[j];
        if v > RANGE_MARKER {
            // The step between the previous value (min) and the next (max).
            let step = v - RANGE_MARKER;
            let min: u16 = if out.len() > 0 {
                out[out.len() - 1]
            } else {
                RANGE_FLOOR
            };
            let max: u16 = if j + 1 < raw.len() {
                raw[j + 1]
            } else {
                min
            };
            let ghost before = out@;
            let ghost j_old = j;
            let mut d: u32 = min as u32 + step as u32;
            while d <= max as u32
                invariant
                    1 <= step,
                    out@ + range_from(d as int, step as int, max as int) == before + range_from(
                        min + step,
                        step as int,
                        max as int,
                    ),
                    step <= 0x2000,
                    d <= 0x12000,
                decreases 0x12000 - d,
            {
                proof {
                    assert(range_from(d as int, step as int, max as int) == seq![d as u16]
                        + range_from(d + step, step as int, max as int));
                    assert(out@.push(d as u16) + range_from(d + step, step as int, max as int)
                        =~= out@ + (seq![d as u16] + range_from(
                        d + step,
                        step as int,
                        max as int,
                    )));
                }
                out.push(d as u16);
                d = d + step as u32;
            }
            assert(range_from(d as int, step as int, max as int) == Seq::<u16>::empty());
            assert(out@ =~= before + range_from(min + step, step as int, max as int));
            // Consume the step and the max.
            j = if j + 1 < raw.len() {
                j + 2
            } else {
                raw.len()
            };
            assert(expand_from(raw@, j as nat, out@) == expand_from(raw@, 0, Seq::empty())) by {
                assert(expand_from(raw@, j_old as nat, before) == expand_from(
                    raw@,
                    (j_old + 2) as nat,
                    out@,
                ));
                if j_old + 2 > raw.len() {
                    assert(expand_from(raw@, (j_old + 2) as nat, out@) == out@);
                    assert(expand_from(raw@, j as nat, out@) == out@);
                }
            }
        } else {
            out.push(v);
            j = j + 1;
        }
    }
    out
}

/// Insert each value of `values` into an ascending list without duplicates.
fn sort_dedup(values: &Vec<u16>) -> (r: Vec<u16>)
    ensures
        strictly_increasing(r@),
        forall|v: u16| r@.contains(v) <==> values@.contains(v),
{
    let mut res: Vec<u16> = Vec::new();
    let mut n: usize = 0;
    while n < values.len()
        invariant
            n <= values.len(),
            strictly_increasing(res@),
            forall|v: u16| res@.contains(v) <==> values@.take(n as int).contains(v),
        decreases values.len() - n,
    {
        let x = values[n];
        // Scan from the end: ranges arrive ascending, so this is usually
        // immediate.
        let mut i = res.len();
        while i > 0 && res[i - 1] > x
            invariant
                i <= res.len(),
                forall|k: int| i <= k < res.len() ==> res@[k] > x,
            decreases i,
        {
            i = i - 1;
        }
        let ghost old_res = res@;
        assert(values@.take(n + 1) =~= values@.take(n as int).push(x));
        if i > 0 && res[i - 1] == x {
            assert forall|v: u16| res@.contains(v) <==> values@.take(n + 1).contains(v) by {
                let t = values@.take(n as int);
                assert(values@.take(n + 1) == t.push(x));
                if v == x {
                    assert(res@[i - 1] == x);
                    assert(t.push(x)[t.len() as int] == x);
                } else {
                    if t.push(x).contains(v) {
                        let k = choose|k: int| 0 <= k < t.len() + 1 && #[trigger] t.push(x)[k] == v;
                        assert(t[k] == v);
                    }
                    if t.contains(v) {
                        let k = choose|k: int| 0 <= k < t.len() && #[trigger] t[k] == v;
                        assert(t.push(x)[k] == v);
                    }
                }
            }
        } else {
            // Everything before `i` is below `x`, everything from `i` above.
            assert forall|k: int| 0 <= k < i implies old_res[k] < x by {
                if k < i - 1 {
                    assert(old_res[k] < old_res[i - 1]);
                }
            }
            res.insert(i, x);
            assert(res@ =~= old_res.subrange(0, i as int).push(x) + old_res.subrange(
                i as int,
                old_res.len() as int,
            ));
            assert forall|a: int, b: int| 0 <= a < b < res@.len() implies res@[a] < res@[b] by {
                if b < i {
                } else if b == i {
                    assert(res@[a] == old_res[a]);
                } else if a < i {
                    assert(res@[b] == old_res[b - 1]);
                } else if a == i {
                    assert(res@[b] == old_res[b - 1]);
                } else {
                    assert(res@[a] == old_res[a - 1]);
                    assert(res@[b] == old_res[b - 1]);
                }
            }
            assert forall|v: u16| res@.contains(v) <==> values@.take(n + 1).contains(v) by {
                let t = values@.take(n as int);
                assert(values@.take(n + 1) == t.push(x));
                assert(t.push(x)[t.len() as int] == x);
                if res@.contains(v) {
                    let k = choose|k: int| 0 <= k < res@.len() && #[trigger] res@[k] == v;
                    if k < i {
                        assert(old_res[k] == v);
                        assert(old_res.contains(v));
                        let m = choose|m: int| 0 <= m < t.len() && #[trigger] t[m] == v;
                        assert(t.push(x)[m] == v);
                    } else if k > i {
                        assert(old_res[k - 1] == v);
                        assert(old_res.contains(v));
                        let m = choose|m: int| 0 <= m < t.len() && #[trigger] t[m] == v;
                        assert(t.push(x)[m] == v);
                    }
                }
                if t.push(x).contains(v) {
                    let k = choose|k: int| 0 <= k < t.len() + 1 && #[trigger] t.push(x)[k] == v;
                    if k < t.len() {
                        assert(t[k] == v);
                        assert(old_res.contains(v));
                        let m = choose|m: int| 0 <= m < old_res.len() && #[trigger] old_res[m] == v;
                        if m < i {
                            assert(res@[m] == v);
                        } else {
                            assert(res@[m + 1] == v);
                        }
                    } else {
                        assert(res@[i as int] == x);
                    }
                }
            }
        }
        n = n + 1;
    }
    assert(values@.take(values.len() as int) =~= values@);
    res
}

/// Expand a getSensorDpiList reply (including range encoding) into discrete,
/// ascending, distinct values: exactly the values the reply describes.
///
/// Range steps are counted in a wider integer than the values, so a range
/// running up to 0xFFFF ends there instead of wrapping.
pub fn decode_dpi_list(rep: &Report) -> (r: Vec<u16>)
    ensures
        strictly_increasing(r@),
        forall|v: u16| r@.contains(v) <==> dpi_values(rep@).contains(v),
{
    let raw = read_raw_list(rep);
    let out = expand_ranges(&raw);
    sort_dedup(&out)
}

/// A getSensorDpi reply: `(current, default)`.
pub fn parse_dpi(rep: &Report) -> (r: (u16, u16))
    ensures
        r == (be16_of(rep@, 1), be16_of(rep@, 3)),
{
    let current = be16(rep.param(1), rep.param(2));
    let default = be16(rep.param(3), rep.param(4));
    (current, default)
}

/// The setSensorDpi parameters for `dpi`: sensor, then the value big-endian.
pub fn set_dpi_params(dpi: u16) -> (r: [u8; 3])
    ensures
        r@ == seq![SENSOR, (dpi / 256) as u8, (dpi % 256) as u8],
{
    let hi = (dpi >> 8u16) as u8;
    let lo = (dpi & 0xFFu16) as u8;
    assert(dpi >> 8u16 == dpi / 256) by (bit_vector);
    assert(dpi & 0xFFu16 == dpi % 256) by (bit_vector);
    let r = [SENSOR, hi, lo];
    assert(r@ =~= seq![SENSOR, (dpi / 256) as u8, (dpi % 256) as u8]);
    r
}

pub open spec fn distance(v: u16, target: u16) -> int {
    if v >= target {
        v - target
    } else {
        target - v
    }
}

/// The value `nearest` picks: the first list entry at the least distance from
/// `target`.
pub open spec fn is_nearest_at(list: Seq<u16>, target: u16, i: int) -> bool {
    &&& 0 <= i < list.len()
    &&& forall|j: int| 0 <= j < list.len() ==> distance(list[i], target) <= distance(#[trigger] list[j], target)
    &&& forall|j: int| 0 <= j < i ==> distance(list[i], target) < distance(#[trigger] list[j], target)
}

/// Nearest value in `list` to `target` (the first of equally near ones), or
/// `target` if the list is empty.
pub fn nearest(list: &[u16], target: u16) -> (r: u16)
    ensures
        list@.len() == 0 ==> r == target,
        list@.len() > 0 ==> exists|i: int| is_nearest_at(list@, target, i) && list@[i] == r,
{
    if list.len() == 0 {
        return target;
    }
    let mut best: usize = 0;
    let mut i: usize = 1;
    while i < list.len()
        invariant
            0 < list@.len(),
            best < i <= list.len(),
            forall|j: int| 0 <= j < i ==> distance(list@[best as int], target) <= distance(#[trigger] list@[j], target),
            forall|j: int| 0 <= j < best ==> distance(list@[best as int], target) < distance(#[trigger] list@[j], target),
        decreases list.len() - i,
    {
        let v = list[i];
        let b = list[best];
        let dv = if v >= target { v - target } else { target - v };
        let db = if b >= target { b - target } else { target - b };
        if dv < db {
            best = i;
        }
        i = i + 1;
    }
    assert(is_nearest_at(list@, target, best as int));
    list[best]
}

/// The DPI actually applied for a desired value: the nearest one the device
/// supports, so a supported value is kept as is.
pub proof fn lemma_nearest_keeps_a_supported_value(list: Seq<u16>, target: u16, i: int)
    requires
        is_nearest_at(list, target, i),
        list.contains(target),
    ensures
        list[i] == target,
{
    let k = choose|k: int| 0 <= k < list.len() && #[trigger] list[k] == target;
    assert(distance(list[k], target) == 0);
    assert(distance(list[i], target) <= distance(list[k], target));
}

} // verus!
