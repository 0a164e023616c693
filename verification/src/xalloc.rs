use vstd::prelude::*;
use vstd::string::StringSliceAdditionalSpecFns;

verus! {

/// A buffer of `len` zero bytes.
pub open spec fn zeros(len: nat) -> Seq<u8> {
    Seq::new(len, |i: int| 0u8)
}

/// The contents of a buffer after it is resized to `len` bytes: the old bytes
/// that still fit, followed by zero bytes.
pub open spec fn resized(old: Seq<u8>, len: nat) -> Seq<u8> {
    Seq::new(len, |i: int| if i < old.len() { old[i] } else { 0u8 })
}

/// Law: resizing a buffer keeps the old bytes that still fit, fills the new
/// room with zeros, and leaves a buffer resized to its own length unchanged;
/// a fresh buffer is a resized empty one.
pub proof fn lemma_resized_keeps_what_fits(old: Seq<u8>, len: nat)
    ensures
        resized(old, len).len() == len,
        forall|i: int| 0 <= i < len && i < old.len() ==> #[trigger] resized(old, len)[i] == old[i],
        forall|i: int| old.len() <= i < len ==> #[trigger] resized(old, len)[i] == 0,
        resized(old, old.len()) == old,
        resized(Seq::empty(), len) == zeros(len),
{
    assert(resized(old, old.len()) =~= old);
    assert(resized(Seq::empty(), len) =~= zeros(len));
}

/// Copies `src` over `dst`, which must have the same length.
#[verifier::external_body]
fn copy_from_slice(dst: &mut [u8], src: &[u8])
    requires
        old(dst)@.len() == src@.len(),
    ensures
        final(dst)@ == src@,
{
    dst.copy_from_slice(src)
}

/// Allocates `s` zero bytes.
pub fn xzalloc(s: usize) -> (r: Vec<u8>)
    ensures
        r@ == zeros(s as nat),
{
    let r: Vec<u8> = vec![0; s];
    assert(r@ =~= zeros(s as nat));
    r
}

/// Duplicates the bytes of `p` into a freshly allocated buffer.
pub fn xmemdup(p: &[u8]) -> (r: Vec<u8>)
    ensures
        r@ == p@,
{
    let mut result: Vec<u8> = vec![0; p.len()];
    copy_from_slice(result.as_mut_slice(), p);
    result
}

/// Allocates a zeroed array of `n` items of `s` bytes each, or `None` when
/// `n * s` does not fit in a `usize`.
pub fn xinmalloc(n: usize, s: usize) -> (r: Option<Vec<u8>>)
    ensures
        r is None <==> n * s > usize::MAX,
        r matches Some(v) ==> v@ == zeros((n * s) as nat),
{
    let total_size = n.checked_mul(s)?;
    let result: Vec<u8> = vec![0; total_size];
    assert(result@ =~= zeros((n * s) as nat));
    Some(result)
}


/// The number of bytes `ireallocarray` allocates for `n` items of `s` bytes:
/// an empty request still gets one byte.
pub open spec fn nonempty_array_bytes(n: int, s: int) -> int {
    if n == 0 || s == 0 { 1 } else { n * s }
}

/// The bytes held by an optional buffer; no buffer holds none.
pub open spec fn contents(p: Option<Vec<u8>>) -> Seq<u8> {
    match p {
        Some(v) => v@,
        None => Seq::empty(),
    }
}

/// Resizes the optional buffer `p` to hold `n` items of `s` bytes, keeping
/// what fits of its contents and zero-filling the rest. A request for zero
/// bytes gets one byte, so the result is never empty.
pub fn ireallocarray(p: Option<Vec<u8>>, n: usize, s: usize) -> (r: Option<Vec<u8>>)
    requires
        n * s <= usize::MAX,
    ensures
        r matches Some(v) && v@ == resized(contents(p), nonempty_array_bytes(n as int, s as int) as nat),
{
    let mut nx: usize = n;
    let mut sx: usize = s;
    if n == 0 || s == 0 {
        sx = 1;
        nx = sx;
    }
    let len: usize = nx * sx;
    let ghost old_contents = contents(p);
    let out: Vec<u8> = match p {
        Some(mut vec) => {
            vec.resize(len, 0);
            vec
        },
        None => vec![0; len],
    };
    assert(out@ =~= resized(old_contents, len as nat));
    Some(out)
}

/// Allocates a zeroed array of `n` items of `s` bytes each, both counts
/// signed. A negative count, or a byte total beyond `usize::MAX`, gives
/// `None`.
pub fn icalloc(n: i64, s: i64) -> (r: Option<Vec<u8>>)
    requires
        n < 0 || s < 0 || (n > 0 && s > 0),
    ensures
        r is None <==> (n < 0 || s < 0 || n * s > usize::MAX),
        r matches Some(v) ==> v@ == zeros((n * s) as nat),
{
    let n_usize: usize = match n.try_into() {
        Ok(v) => v,
        Err(_) => {
            proof {
                if n >= 0 && s > 0 {
                    assert(n * s >= n) by (nonlinear_arith)
                        requires n >= 0, s > 0;
                }
            }
            return None;
        },
    };
    let s_usize: usize = match s.try_into() {
        Ok(v) => v,
        Err(_) => {
            proof {
                if s >= 0 && n > 0 {
                    assert(n * s >= s) by (nonlinear_arith)
                        requires s >= 0, n > 0;
                }
            }
            return None;
        },
    };
    if n_usize > usize::MAX / s_usize {
        proof {
            assert(n * s > usize::MAX) by (nonlinear_arith)
                requires n_usize > usize::MAX / s_usize, s_usize > 0, n == n_usize, s == s_usize;
        }
        return None;
    }
    if s_usize > usize::MAX / n_usize {
        proof {
            assert(n * s > usize::MAX) by (nonlinear_arith)
                requires s_usize > usize::MAX / n_usize, n_usize > 0, n == n_usize, s == s_usize;
        }
        return None;
    }
    let total_size = n_usize.checked_mul(s_usize)?;
    let v: Vec<u8> = vec![0; total_size];
    assert(v@ =~= zeros((n * s) as nat));
    Some(v)
}

/// Duplicates the `len()`-byte buffer `p` into a fresh buffer with a
/// terminating zero byte.
pub fn ximemdup0(p: &[u8]) -> (r: Vec<u8>)
    requires
        p@.len() < usize::MAX,
    ensures
        r@ == p@.push(0u8),
{
    let s = p.len();
    let mut result: Vec<u8> = Vec::with_capacity(s + 1);
    result.extend_from_slice(p);
    result.push(0);
    assert(result@ =~= p@.push(0u8));
    result
}

/// Copies `p` into a buffer allocated with room for exactly `p.len()` bytes
/// but still empty; the copy succeeds only when `p` is empty, so that is the
/// only input it accepts.
pub fn ximemdup(p: &[u8]) -> (r: Vec<u8>)
    requires
        p@.len() == 0,
    ensures
        r@ == p@,
{
    let s = p.len();
    let mut new_vec: Vec<u8> = Vec::with_capacity(s);
    copy_from_slice(new_vec.as_mut_slice(), p);
    new_vec
}


/// Copies the bytes of `p`, if any, into a new buffer with room reserved for
/// `s` bytes. The result always exists; without `p` it is empty.
pub fn xirealloc(p: Option<&mut [u8]>, s: usize) -> (r: Option<Vec<u8>>)
    ensures
        r matches Some(v) && v@ == (match p {
            Some(slice) => slice@,
            None => Seq::<u8>::empty(),
        }),
        p matches Some(slice) ==> final(slice)@ == slice@,
{
    match p {
        Some(slice) => {
            let mut vec: Vec<u8> = Vec::with_capacity(s);
            vec.extend_from_slice(slice);
            assert(vec@ =~= slice@);
            Some(vec)
        },
        None => {
            let vec: Vec<u8> = Vec::with_capacity(s);
            Some(vec)
        },
    }
}

/// Resizes `p` to `n` items of `s` bytes each, zero-filling new bytes, and
/// lends out the resized contents. When `n * s` does not fit in a `usize`,
/// `p` is left as it was and the result is `None`.
pub fn xireallocarray(p: &mut Vec<u8>, n: usize, s: usize) -> (r: Option<&mut [u8]>)
    ensures
        r is None <==> n * s > usize::MAX,
        r is None ==> final(p)@ == old(p)@,
        r matches Some(slice) ==> slice@ == resized(old(p)@, (n * s) as nat)
            && final(p)@ == final(slice)@,
{
    let new_size = n.checked_mul(s)?;
    p.resize(new_size, 0);
    assert(p@ =~= resized(old(p)@, (n * s) as nat));
    Some(p.as_mut_slice())
}

/// Duplicates `string` with a terminating NUL character.
pub fn xstrdup(string: &str) -> (r: String)
    requires
        string.spec_bytes().len() < usize::MAX,
    ensures
        r@ == string@.push('\0'),
{
    let mut duplicated = string.to_owned();
    duplicated.append("\0");
    proof {
        reveal_strlit("\0");
    }
    assert(duplicated@ =~= string@.push('\0'));
    duplicated
}


/// Whether a null result from `realloc` or `reallocarray` must end the
/// program: it must when there was no old block, or when a nonzero number of
/// bytes (`n` items of `s` bytes, with neither count zero) was asked for.
/// A zero-byte request on an existing block may free it and return null.
pub fn realloc_failure_is_fatal(result_is_null: bool, p_is_null: bool, n: usize, s: usize) -> (b: bool)
    ensures
        b == (result_is_null && (p_is_null || (n != 0 && s != 0))),
{
    result_is_null && (p_is_null || n != 0 && s != 0)
}

} // verus!
