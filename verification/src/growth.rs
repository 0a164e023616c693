use vstd::prelude::*;

verus! {

/// The byte size that small arrays are rounded up to: the largest "small"
/// request of the GNU C library's allocator.
pub const DEFAULT_MXFAST: i64 = 128;

/// Whether `x` is representable as an `i64` index.
pub open spec fn fits_idx(x: int) -> bool {
    i64::MIN <= x <= i64::MAX
}

/// The first guess at the new item count: half again as many as `n0`
/// (saturating at `i64::MAX`), capped at `n_max` when `n_max` is
/// nonnegative.
pub open spec fn xpalloc_target(n0: int, n_max: int) -> int {
    let grown = if fits_idx(n0 + n0 / 2) { n0 + n0 / 2 } else { i64::MAX as int };
    if 0 <= n_max && n_max < grown { n_max } else { grown }
}

/// The item count after the byte size is adjusted: a byte size that does not
/// fit is cut to the largest whole number of items in `i64::MAX` bytes, and
/// one below `DEFAULT_MXFAST` is raised to the whole number of items in
/// `DEFAULT_MXFAST` bytes.
pub open spec fn xpalloc_adjusted(n0: int, n_max: int, s: int) -> int {
    let n = xpalloc_target(n0, n_max);
    if !fits_idx(n * s) {
        i64::MAX as int / s
    } else if n * s < DEFAULT_MXFAST {
        DEFAULT_MXFAST as int / s
    } else {
        n
    }
}

/// The new item count `xpalloc` settles on, or `None` when it has to give up:
/// if the adjusted count grows the array by fewer than `n_incr_min` items,
/// exactly `n0 + n_incr_min` items are taken, which must fit in an `i64`,
/// respect a nonnegative `n_max`, and have a byte size that fits in an `i64`.
pub open spec fn xpalloc_count(n0: int, n_incr_min: int, n_max: int, s: int) -> Option<int> {
    let n = xpalloc_adjusted(n0, n_max, s);
    if n - n0 < n_incr_min {
        let m = n0 + n_incr_min;
        if !fits_idx(m) || (0 <= n_max && n_max < m) || !fits_idx(m * s) {
            None
        } else {
            Some(m)
        }
    } else {
        Some(n)
    }
}

/// The outcome of a successful growth computation: the new number of items
/// and the byte size of an array of that many items.
#[derive(Debug, Clone, Copy, PartialEq, Eq)]
pub struct XpallocGrowth {
    pub count: i64,
    pub nbytes: i64,
}

proof fn lemma_shift_is_half(x: i64)
    ensures
        (x >> 1u32) as int == x as int / 2,
{
    assert(x >> 1u32 == x / 2) by (bit_vector);
}

/// Computes how far `xpalloc` grows an array of `n0` items of `s` bytes each:
/// by about half, within the bounds of `n_incr_min` more items at least,
/// `n_max` items at most when `n_max` is nonnegative (a tiny array may
/// still be rounded up to `DEFAULT_MXFAST` bytes), and what an `i64` can
/// count in bytes. `None` means that no acceptable size exists and the
/// caller must give up.
pub fn xpalloc_growth(n0: i64, n_incr_min: i64, n_max: i64, s: i64) -> (r: Option<XpallocGrowth>)
    requires
        s > 0,
        xpalloc_adjusted(n0 as int, n_max as int, s as int) - n0 <= i64::MAX,
    ensures
        match xpalloc_count(n0 as int, n_incr_min as int, n_max as int, s as int) {
            None => r is None,
            Some(c) => r matches Some(g) && g.count == c && g.nbytes == c * s,
        },
{
    proof {
        lemma_shift_is_half(n0);
    }
    let mut n: i64 = match n0.checked_add(n0 >> 1u32) {
        Some(v) => v,
        None => i64::MAX,
    };
    if 0 <= n_max && n_max < n {
        n = n_max;
    }
    assert(n == xpalloc_target(n0 as int, n_max as int));
    let ghost target = n as int;
    let mut nbytes: i64 = 0;
    let adjusted_nbytes: i64 = match n.checked_mul(s) {
        None => i64::MAX,
        Some(b) => {
            nbytes = b;
            if b < DEFAULT_MXFAST {
                DEFAULT_MXFAST
            } else {
                0
            }
        },
    };
    if adjusted_nbytes != 0 {
        n = adjusted_nbytes / s;
        nbytes = adjusted_nbytes - adjusted_nbytes % s;
        proof {
            let a = adjusted_nbytes as int;
            assert(a - a % (s as int) == (a / (s as int)) * s) by (nonlinear_arith)
                requires s > 0, a >= 0;
        }
    }
    assert(n == xpalloc_adjusted(n0 as int, n_max as int, s as int));
    assert(nbytes == n * s);
    if n - n0 < n_incr_min {
        match n0.checked_add(n_incr_min) {
            None => return None,
            Some(m) => {
                n = m;
            },
        }
        if 0 <= n_max && n_max < n {
            return None;
        }
        match n.checked_mul(s) {
            None => return None,
            Some(b) => {
                nbytes = b;
            },
        }
    }
    Some(XpallocGrowth { count: n, nbytes })
}


/// Law: whenever `xpalloc` succeeds, the array gains at least `n_incr_min`
/// items, ends up with a nonnegative count, and its byte size fits in an
/// `i64`.
pub proof fn lemma_xpalloc_grows_by_at_least_the_minimum(n0: i64, n_incr_min: i64, n_max: i64, s: i64)
    requires
        s > 0,
    ensures
        xpalloc_count(n0 as int, n_incr_min as int, n_max as int, s as int) matches Some(c)
            ==> c - n0 >= n_incr_min && c >= 0 && fits_idx(c * s),
{
    let n = xpalloc_adjusted(n0 as int, n_max as int, s as int);
    let t = xpalloc_target(n0 as int, n_max as int);
    if !fits_idx(t * s) {
        assert(0 <= (i64::MAX as int / s as int) * s <= i64::MAX) by (nonlinear_arith)
            requires s > 0;
    } else if t * s < DEFAULT_MXFAST {
        assert(0 <= (DEFAULT_MXFAST as int / s as int) * s <= DEFAULT_MXFAST) by (nonlinear_arith)
            requires s > 0;
    } else {
        assert(t >= 0) by (nonlinear_arith)
            requires s > 0, t * s >= DEFAULT_MXFAST, DEFAULT_MXFAST == 128;
    }
    assert(n >= 0);
}

/// Law: `xpalloc` succeeds whenever the minimum growth it is asked for is
/// representable: `n0 + n_incr_min` fits in an `i64`, respects a
/// nonnegative `n_max`, and has a byte size that fits in an `i64`.
pub proof fn lemma_xpalloc_succeeds_when_minimum_fits(n0: i64, n_incr_min: i64, n_max: i64, s: i64)
    requires
        s > 0,
        fits_idx(n0 + n_incr_min),
        !(0 <= n_max && n_max < n0 + n_incr_min),
        fits_idx((n0 + n_incr_min) * s),
    ensures
        xpalloc_count(n0 as int, n_incr_min as int, n_max as int, s as int) is Some,
{
}

/// Law: a nonnegative `n_max` bounds the new count, except when a tiny array
/// is rounded up to the `DEFAULT_MXFAST`-byte default size. It is stated
/// for a nonnegative `n0`, the count of an existing array.
pub proof fn lemma_xpalloc_respects_n_max(n0: i64, n_incr_min: i64, n_max: i64, s: i64)
    requires
        s > 0,
        n0 >= 0,
        0 <= n_max,
    ensures
        xpalloc_count(n0 as int, n_incr_min as int, n_max as int, s as int) matches Some(c)
            ==> c <= n_max || c == DEFAULT_MXFAST as int / s as int,
{
    let t = xpalloc_target(n0 as int, n_max as int);
    assert(0 <= t <= n_max);
    if !fits_idx(t * s) {
        assert(t * s >= 0) by (nonlinear_arith)
            requires s > 0, t >= 0;
        assert((i64::MAX as int / s as int) <= t) by (nonlinear_arith)
            requires s > 0, t * s > i64::MAX, t >= 0;
    }
}

/// Law: without bounds in the way, `xpalloc` grows a nonempty array by half
/// (rounding down): the new count is `n0 + n0 / 2`. A maximum only caps
/// that growth; one at or above `n0 + n0 / 2` changes nothing.
pub proof fn lemma_xpalloc_grows_by_half(n0: i64, n_incr_min: i64, n_max: i64, s: i64)
    requires
        s > 0,
        n0 >= 0,
        n_max < 0 || n0 + n0 / 2 <= n_max,
        n_incr_min <= n0 / 2,
        fits_idx((n0 + n0 / 2) * s),
        (n0 + n0 / 2) * s >= DEFAULT_MXFAST,
    ensures
        xpalloc_count(n0 as int, n_incr_min as int, n_max as int, s as int) == Some(n0 + n0 / 2),
{
    assert(fits_idx(n0 + n0 / 2)) by (nonlinear_arith)
        requires s > 0, n0 >= 0, fits_idx((n0 + n0 / 2) * s);
}

/// Law: an empty array starts at as many items as fit in `DEFAULT_MXFAST`
/// bytes, whatever the maximum, as long as that maximum (when nonnegative)
/// and the minimum increment allow it.
pub proof fn lemma_xpalloc_starts_empty_arrays_at_default_size(n_incr_min: i64, n_max: i64, s: i64)
    requires
        s > 0,
        n_incr_min <= DEFAULT_MXFAST / s,
        n_max < 0 || DEFAULT_MXFAST / s <= n_max,
    ensures
        xpalloc_count(0, n_incr_min as int, n_max as int, s as int) == Some(DEFAULT_MXFAST as int / s as int),
{
    assert(xpalloc_target(0, n_max as int) == 0);
    assert(0 * (s as int) == 0);
    assert(xpalloc_adjusted(0, n_max as int, s as int) == DEFAULT_MXFAST as int / s as int);
}

/// Law: a nonnegative maximum never makes the array larger than it would be
/// with no maximum at all, and never turns a failure into a success.
pub proof fn lemma_xpalloc_maximum_never_enlarges(n0: i64, n_incr_min: i64, n_max: i64, s: i64)
    requires
        s > 0,
        n0 >= 0,
        0 <= n_max,
    ensures
        xpalloc_count(n0 as int, n_incr_min as int, n_max as int, s as int) matches Some(c)
            ==> (xpalloc_count(n0 as int, n_incr_min as int, -1, s as int) matches Some(u) && c <= u),
{
    let t = xpalloc_target(n0 as int, n_max as int);
    let tu = xpalloc_target(n0 as int, -1);
    let a = xpalloc_adjusted(n0 as int, n_max as int, s as int);
    let au = xpalloc_adjusted(n0 as int, -1, s as int);
    assert(0 <= t <= tu);
    assert(t * s <= tu * s && 0 <= t * s) by (nonlinear_arith)
        requires 0 <= t <= tu, s > 0;
    let mx = i64::MAX as int / s as int;
    let df = DEFAULT_MXFAST as int / s as int;
    assert(df <= mx) by (nonlinear_arith)
        requires s > 0, mx == i64::MAX as int / s as int, df == 128int / s as int;
    if fits_idx(tu * s) && tu * s >= DEFAULT_MXFAST {
        assert(df <= tu) by (nonlinear_arith)
            requires s > 0, tu * s >= 128, df == 128int / s as int;
    }
    if !fits_idx(tu * s) {
        if fits_idx(t * s) {
            assert(t <= mx) by (nonlinear_arith)
                requires s > 0, t * s <= i64::MAX, t >= 0, mx == i64::MAX as int / s as int;
        }
    }
    assert(a <= au);
}

/// For an existing array (`n0 >= 0`) of items of positive size, the growth
/// computation is defined: the adjusted count never runs more than
/// `i64::MAX` items past `n0`.
pub proof fn lemma_xpalloc_defined_for_nonnegative_counts(n0: i64, n_max: i64, s: i64)
    requires
        s > 0,
        n0 >= 0,
    ensures
        xpalloc_adjusted(n0 as int, n_max as int, s as int) - n0 <= i64::MAX,
{
    let t = xpalloc_target(n0 as int, n_max as int);
    assert(t <= i64::MAX);
    if !fits_idx(t * s) {
        assert(i64::MAX as int / s as int <= i64::MAX) by (nonlinear_arith)
            requires s > 0;
    } else if t * s < DEFAULT_MXFAST {
        assert(DEFAULT_MXFAST as int / s as int <= DEFAULT_MXFAST) by (nonlinear_arith)
            requires s > 0, DEFAULT_MXFAST == 128;
    }
}

/// The new item count `x2nrealloc` asks for, or `None` when it must give up:
/// a missing array with no count gets as many items as fit in
/// `DEFAULT_MXFAST` bytes (at least one); a missing array with a count keeps
/// it; an existing array grows to `n + n / 2 + 1` items, which must fit in a
/// `usize`.
pub open spec fn x2nrealloc_count_spec(p_is_null: bool, n: int, s: int) -> Option<int> {
    if p_is_null {
        if n == 0 {
            let q = DEFAULT_MXFAST as int / s;
            Some(if q == 0 { 1 } else { q })
        } else {
            Some(n)
        }
    } else {
        let m = n + n / 2 + 1;
        if m > usize::MAX { None } else { Some(m) }
    }
}

proof fn lemma_usize_shift_is_half(x: usize)
    ensures
        (x >> 1u32) as int == x as int / 2,
{
    assert(x >> 1u32 == x / 2) by (bit_vector);
}

/// Computes the new item count of `x2nrealloc` for an array of `n` items of
/// `s` bytes each, where `p_is_null` tells whether the array exists yet.
pub fn x2nrealloc_count(p_is_null: bool, n: usize, s: usize) -> (r: Option<usize>)
    requires
        p_is_null && n == 0 ==> s != 0,
    ensures
        match x2nrealloc_count_spec(p_is_null, n as int, s as int) {
            None => r is None,
            Some(c) => r == Some(c as usize),
        },
        r matches Some(c) ==> c >= 1,
        !p_is_null ==> (r matches Some(c) ==> c > n),
{
    let mut n: usize = n;
    if p_is_null {
        if n == 0 {
            n = (DEFAULT_MXFAST as usize) / s;
            n = n + (if n == 0 { 1 } else { 0 });
        }
        Some(n)
    } else {
        proof {
            lemma_usize_shift_is_half(n);
        }
        n.checked_add((n >> 1u32) + 1)
    }
}

} // verus!
