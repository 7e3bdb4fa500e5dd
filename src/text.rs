use vstd::prelude::*;

use crate::error::ValueError;

verus! {

/// `i` is where the text in `b` ends: the first zero byte, or the end of
/// `b` when it holds none.
pub open spec fn is_nul_index(b: Seq<u8>, i: int) -> bool {
    &&& 0 <= i <= b.len()
    &&& forall|j: int| 0 <= j < i ==> b[j] != 0
    &&& i < b.len() ==> b[i] == 0
}

pub open spec fn nul_index(b: Seq<u8>) -> int {
    choose|i: int| is_nul_index(b, i)
}

/// The bytes of the NUL-terminated text held in the fixed array `b`.
pub open spec fn c_str(b: Seq<u8>) -> Seq<u8> {
    b.subrange(0, nul_index(b))
}

/// The text of `b` is the prefix that ends where the text ends: `c_str` is
/// determined by the bytes through `is_nul_index`.
pub proof fn lemma_c_str_ends_at(b: Seq<u8>, i: int)
    requires
        is_nul_index(b, i),
    ensures
        nul_index(b) == i,
        c_str(b) == b.subrange(0, i),
{
    let k = nul_index(b);
    assert(is_nul_index(b, k));
    if i < k {
        assert(b[i] != 0);
    } else if k < i {
        assert(b[k] != 0);
    }
}

/// The text of an array with no zero byte is the whole array; with or
/// without one, it never reaches past the array's end.
pub proof fn lemma_c_str_without_nul_is_whole(b: Seq<u8>)
    ensures
        (forall|j: int| 0 <= j < b.len() ==> b[j] != 0) ==> c_str(b) == b,
        c_str(b).len() <= b.len(),
        forall|j: int| 0 <= j < c_str(b).len() ==> c_str(b)[j] == b[j] && b[j] != 0,
{
    lemma_nul_index_exists(b);
    if forall|j: int| 0 <= j < b.len() ==> b[j] != 0 {
        lemma_c_str_ends_at(b, b.len() as int);
        assert(c_str(b) =~= b);
    }
}

proof fn lemma_nul_index_exists(b: Seq<u8>)
    ensures
        is_nul_index(b, nul_index(b)),
{
    if exists|j: int| 0 <= j < b.len() && b[j] == 0 {
        let j = choose|j: int| 0 <= j < b.len() && b[j] == 0;
        lemma_first_nul(b, j);
    } else {
        assert(is_nul_index(b, b.len() as int));
    }
}

proof fn lemma_first_nul(b: Seq<u8>, j: int)
    requires
        0 <= j < b.len(),
        b[j] == 0,
    ensures
        exists|i: int| is_nul_index(b, i),
    decreases j,
{
    if forall|k: int| 0 <= k < j ==> b[k] != 0 {
        assert(is_nul_index(b, j));
    } else {
        let k = choose|k: int| 0 <= k < j && b[k] == 0;
        lemma_first_nul(b, k);
    }
}

/// The NUL-terminated prefix of `array`, as a view into it.
pub fn c_str_bytes(array: &[u8]) -> (r: &[u8])
    ensures
        r@ == c_str(array@),
{
    let n = array.len();
    let mut i: usize = 0;
    while i < n && array[i] != 0
        invariant
            n == array@.len(),
            i <= n,
            forall|j: int| 0 <= j < i ==> array@[j] != 0,
        decreases n - i,
    {
        i = i + 1;
    }
    proof {
        lemma_c_str_ends_at(array@, i as int);
    }
    vstd::slice::slice_subrange(array, 0, i)
}

/// What `std::str::from_utf8` makes of a byte string: the text it encodes,
/// or `None` when it is not valid UTF-8.
pub uninterp spec fn utf8_decode(b: Seq<u8>) -> Option<Seq<char>>;

/// Relies on `std::str::from_utf8`: it succeeds exactly on valid UTF-8, the
/// text then depends on the bytes alone, and no bytes are no text.
#[verifier::external_body]
fn str_from_utf8(b: &[u8]) -> (r: Option<&str>)
    ensures
        r.is_some() == utf8_decode(b@).is_some(),
        r.is_some() ==> utf8_decode(b@) == Some(r.unwrap()@),
        b@.len() == 0 ==> r.is_some() && r.unwrap()@.len() == 0,
{
    std::str::from_utf8(b).ok()
}

/// Decodes the NUL-terminated text in a fixed array as UTF-8.
pub fn libc_str_to_str(array: &[u8]) -> (r: Result<&str, ValueError>)
    ensures
        match utf8_decode(c_str(array@)) {
            Some(t) => r matches Ok(s) && s@ == t,
            None => r == Err::<&str, ValueError>(ValueError::InvalidString),
        },
{
    match str_from_utf8(c_str_bytes(array)) {
        Some(s) => Ok(s),
        None => Err(ValueError::InvalidString),
    }
}

/// Takes the NUL-terminated path in a fixed array; a path may hold any
/// bytes, so this never fails.
pub fn libc_str_to_path(array: &[u8]) -> (r: Result<&[u8], ValueError>)
    ensures
        r matches Ok(p) && p@ == c_str(array@),
{
    Ok(c_str_bytes(array))
}

} // verus!
