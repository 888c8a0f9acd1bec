//! What every descriptor shares on its way to a native library: fixed arrays
//! filled from lists, strings made NUL-terminated, and the errors that stop
//! a descriptor from crossing.
use vstd::prelude::*;
use vstd::utf8::{decode_utf8, encode_utf8, encode_utf8_decode_utf8};

verus! {

/// Why a descriptor could not be marshalled. Each is a mistake of the caller
/// and is meant to be reported loudly.
#[derive(Copy, Clone, Debug, PartialEq, Eq, Structural)]
pub enum MarshalError {
    /// A list holds `len` entries where the fixed array that receives it has
    /// room for `capacity`.
    TooMany { capacity: usize, len: usize },
    /// A string holds a NUL byte, which would cut it short on the native side.
    InteriorNul,
    /// A number does not fit the native field that receives it.
    OutOfRange,
}

/// `s` in the front of a sequence of `n` items, the rest of which are `fill`.
pub open spec fn padded<T>(s: Seq<T>, n: nat, fill: T) -> Seq<T> {
    Seq::new(n, |i: int| if i < s.len() { s[i] } else { fill })
}

/// Copies `src` into the front of a fresh array and fills the rest with
/// `fill`.
pub(crate) fn padded_array<T: Copy, const N: usize>(src: &[T], fill: T) -> (r: [T; N])
    requires
        src@.len() <= N,
    ensures
        r@ == padded(src@, N as nat, fill),
{
    let mut a: [T; N] = [fill; N];
    let mut i: usize = 0;
    while i < src.len()
        invariant
            i <= src@.len() <= N,
            a@.len() == N,
            forall|j: int| 0 <= j < i ==> a@[j] == src@[j],
            forall|j: int| i <= j < N ==> a@[j] == fill,
        decreases src@.len() - i,
    {
        a[i] = src[i];
        i += 1;
    }
    assert(a@ =~= padded(src@, N as nat, fill));
    a
}

/// Fails with `TooMany` where a list of `len` entries does not fit an array
/// of `capacity`.
pub(crate) fn check_fits(len: usize, capacity: usize) -> (r: Result<(), MarshalError>)
    ensures
        r is Ok <==> len <= capacity,
        r is Err ==> r == Err::<(), MarshalError>(MarshalError::TooMany { capacity, len }),
{
    if len <= capacity {
        Ok(())
    } else {
        Err(MarshalError::TooMany { capacity, len })
    }
}

/// The bytes of `s` followed by a NUL: a string in the native form.
pub open spec fn c_string_of(s: Seq<char>) -> Seq<u8> {
    encode_utf8(s).push(0u8)
}

/// Whether `s` can cross as a native string, that is whether none of its
/// bytes is NUL.
pub open spec fn fits_c_string(s: Seq<char>) -> bool {
    !encode_utf8(s).contains(0u8)
}

/// Whether every string of `s` that is present can cross.
pub open spec fn fits_opt_c_string(s: Option<&str>) -> bool {
    s matches Some(t) ==> fits_c_string(t@)
}

/// Whether `b` is the native form of `s`.
pub open spec fn holds_c_string(b: Option<Vec<u8>>, s: &str) -> bool {
    b matches Some(v) && v@ == c_string_of(s@)
}

/// Whether `b` is the native form of `s`, a null pointer where `s` is absent.
pub open spec fn holds_opt_c_string(b: Option<Vec<u8>>, s: Option<&str>) -> bool {
    match s {
        Some(t) => holds_c_string(b, t),
        None => b is None,
    }
}

/// Copies `s` into a NUL-terminated buffer; fails where `s` holds a NUL.
pub fn c_string(s: &str) -> (r: Result<Vec<u8>, MarshalError>)
    ensures
        r is Ok <==> fits_c_string(s@),
        match r {
            Ok(b) => b@ == c_string_of(s@),
            Err(e) => e == MarshalError::InteriorNul,
        },
{
    let bytes = s.as_bytes();
    let mut out: Vec<u8> = Vec::new();
    let mut i: usize = 0;
    while i < bytes.len()
        invariant
            bytes@ == encode_utf8(s@),
            i <= bytes@.len(),
            out@ == bytes@.take(i as int),
            forall|j: int| 0 <= j < i ==> bytes@[j] != 0u8,
        decreases bytes@.len() - i,
    {
        if bytes[i] == 0 {
            assert(encode_utf8(s@)[i as int] == 0u8);
            return Err(MarshalError::InteriorNul);
        }
        out.push(bytes[i]);
        i += 1;
        assert(out@ =~= bytes@.take(i as int));
    }
    assert(bytes@.take(i as int) =~= bytes@);
    out.push(0);
    Ok(out)
}

/// The bytes of a native string up to its first NUL: what the native side
/// reads back from it.
pub open spec fn c_string_prefix(b: Seq<u8>) -> Seq<u8>
    decreases b.len(),
{
    if b.len() == 0 {
        b
    } else if b[0] == 0u8 {
        Seq::empty()
    } else {
        seq![b[0]] + c_string_prefix(b.drop_first())
    }
}

proof fn lemma_prefix_of_terminated(e: Seq<u8>)
    requires
        !e.contains(0u8),
    ensures
        c_string_prefix(e.push(0u8)) == e,
    decreases e.len(),
{
    if e.len() == 0 {
        assert(e.push(0u8)[0] == 0u8);
        assert(e =~= Seq::<u8>::empty());
    } else {
        let t = e.drop_first();
        assert(!t.contains(0u8)) by {
            if t.contains(0u8) {
                let k = choose|k: int| 0 <= k < t.len() && t[k] == 0u8;
                assert(e[k + 1] == 0u8);
            }
        }
        lemma_prefix_of_terminated(t);
        assert(e.push(0u8).drop_first() =~= t.push(0u8));
        assert(e[0] != 0u8) by {
            if e[0] == 0u8 {
                assert(e.contains(0u8));
            }
        }
        assert(seq![e[0]] + t =~= e);
    }
}

/// A string that can cross reads back on the native side as the same
/// characters.
pub proof fn lemma_c_string_reads_back(s: Seq<char>)
    requires
        fits_c_string(s),
    ensures
        decode_utf8(c_string_prefix(c_string_of(s))) == s,
{
    lemma_prefix_of_terminated(encode_utf8(s));
    encode_utf8_decode_utf8(s);
}

/// A string field that a descriptor holds reads back as the string it was
/// made from.
pub proof fn lemma_held_c_string_reads_back(b: Option<Vec<u8>>, s: &str)
    requires
        holds_c_string(b, s),
        fits_c_string(s@),
    ensures
        decode_utf8(c_string_prefix(b->Some_0@)) == s@,
{
    lemma_c_string_reads_back(s@);
}

/// Reading back the first `s.len()` slots of a filled array gives `s`.
pub proof fn lemma_padded_reads_back<T>(s: Seq<T>, n: nat, fill: T)
    requires
        s.len() <= n,
    ensures
        padded(s, n, fill).len() == n,
        padded(s, n, fill).take(s.len() as int) == s,
{
    assert(padded(s, n, fill).take(s.len() as int) =~= s);
}

/// Every slot of a filled array after the copied list holds the fill value,
/// whatever was there before.
pub proof fn lemma_padded_tail_is_fill<T>(s: Seq<T>, n: nat, fill: T, i: int)
    requires
        s.len() <= i < n,
    ensures
        padded(s, n, fill)[i] == fill,
{
}

} // verus!
