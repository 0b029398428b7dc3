//! Big-endian integer encodings and byte-string helpers shared by the
//! record builder and the store key codec.

use vstd::prelude::*;

verus! {

/// The `len` low-order base-256 digits of `x`, most significant first.
pub open spec fn be_bytes(x: nat, len: nat) -> Seq<u8>
    decreases len,
{
    if len == 0 {
        Seq::empty()
    } else {
        be_bytes(x / 256, (len - 1) as nat).push((x % 256) as u8)
    }
}

/// The number that the bytes of `s` spell in base 256, most significant first.
pub open spec fn be_value(s: Seq<u8>) -> nat
    decreases s.len(),
{
    if s.len() == 0 {
        0
    } else {
        be_value(s.drop_last()) * 256 + s.last() as nat
    }
}

/// `x` has at most `len` base-256 digits.
pub open spec fn fits_in(x: nat, len: nat) -> bool
    decreases len,
{
    if len == 0 {
        x == 0
    } else {
        fits_in(x / 256, (len - 1) as nat)
    }
}

/// The number of values that `len` bytes can spell: 256 to the power `len`.
pub open spec fn capacity(len: nat) -> nat
    decreases len,
{
    if len == 0 {
        1
    } else {
        256 * capacity((len - 1) as nat)
    }
}

/// The bytes of `s` spell a number below the capacity of their length.
pub proof fn lemma_be_value_bound(s: Seq<u8>)
    ensures
        be_value(s) < capacity(s.len()),
    decreases s.len(),
{
    if s.len() > 0 {
        lemma_be_value_bound(s.drop_last());
    }
}

/// An encoding has exactly as many bytes as were asked for.
pub proof fn lemma_be_bytes_len(x: nat, len: nat)
    ensures
        be_bytes(x, len).len() == len,
    decreases len,
{
    if len > 0 {
        lemma_be_bytes_len(x / 256, (len - 1) as nat);
    }
}

/// Decoding the encoding of a number that fits gives the number back.
pub proof fn lemma_be_round_trip(x: nat, len: nat)
    requires
        fits_in(x, len),
    ensures
        be_value(be_bytes(x, len)) == x,
    decreases len,
{
    if len > 0 {
        let rest = be_bytes(x / 256, (len - 1) as nat);
        lemma_be_round_trip(x / 256, (len - 1) as nat);
        assert(be_bytes(x, len).drop_last() =~= rest);
        assert(be_bytes(x, len).last() == (x % 256) as u8);
    }
}

/// `a` comes before `b` in the order of byte strings: at the first place
/// where the two differ, `a` has the smaller byte.
pub open spec fn sorts_before(a: Seq<u8>, b: Seq<u8>) -> bool {
    exists|i: int|
        0 <= i < a.len() && i < b.len() && a.subrange(0, i) == b.subrange(0, i) && #[trigger] a[i]
            < b[i]
}

/// Encodings of the same length sort as the numbers do.
pub proof fn lemma_be_bytes_ordered(x: nat, y: nat, len: nat)
    requires
        x < y,
        fits_in(y, len),
    ensures
        sorts_before(be_bytes(x, len), be_bytes(y, len)),
    decreases len,
{
    if len > 0 {
        let a = be_bytes(x, len);
        let b = be_bytes(y, len);
        let shorter = (len - 1) as nat;
        lemma_be_bytes_len(x, len);
        lemma_be_bytes_len(y, len);
        lemma_be_bytes_len(x / 256, shorter);
        lemma_be_bytes_len(y / 256, shorter);
        if x / 256 == y / 256 {
            let i = len - 1;
            assert(a.subrange(0, i) =~= be_bytes(x / 256, shorter));
            assert(b.subrange(0, i) =~= be_bytes(y / 256, shorter));
            assert(a[i] == (x % 256) as u8);
            assert(b[i] == (y % 256) as u8);
            assert(a[i] < b[i]);
        } else {
            lemma_be_bytes_ordered(x / 256, y / 256, shorter);
            let short_a = be_bytes(x / 256, shorter);
            let short_b = be_bytes(y / 256, shorter);
            let i = choose|i: int|
                0 <= i < short_a.len() && i < short_b.len() && short_a.subrange(0, i)
                    == short_b.subrange(0, i) && #[trigger] short_a[i] < short_b[i];
            assert(a.subrange(0, i) =~= short_a.subrange(0, i));
            assert(b.subrange(0, i) =~= short_b.subrange(0, i));
            assert(a[i] == short_a[i]);
            assert(b[i] == short_b[i]);
            assert(a[i] < b[i]);
        }
    }
}

/// Every 64-bit number has at most eight base-256 digits.
pub proof fn lemma_u64_fits(x: u64)
    ensures
        fits_in(x as nat, 8),
{
    reveal_with_fuel(fits_in, 9);
}

/// Every 128-bit number has at most sixteen base-256 digits.
pub proof fn lemma_u128_fits(x: u128)
    ensures
        fits_in(x as nat, 16),
{
    reveal_with_fuel(fits_in, 17);
}

/// Writes the `len` low-order base-256 digits of `x`, most significant first.
fn encode_be(x: u128, len: usize) -> (out: Vec<u8>)
    ensures
        out@ == be_bytes(x as nat, len as nat),
{
    let mut digits: Vec<u8> = Vec::new();
    let mut rest: u128 = x;
    let mut i: usize = 0;
    // Least significant digit first.
    while i < len
        invariant
            i <= len,
            digits@.len() == i,
            forall|k: nat| #![trigger be_bytes(rest as nat, k)]
                be_bytes(x as nat, i as nat + k) == be_bytes(rest as nat, k) + digits@.reverse(),
        decreases len - i,
    {
        let digit: u8 = (rest % 256) as u8;
        proof {
            let prev = digits@;
            let next = prev.push(digit);
            assert forall|k: nat| #![trigger be_bytes((rest / 256) as nat, k)]
                be_bytes(x as nat, (i + 1) as nat + k) == be_bytes((rest / 256) as nat, k)
                    + next.reverse() by {
                assert(be_bytes(x as nat, i as nat + (k + 1)) == be_bytes(rest as nat, k + 1)
                    + prev.reverse());
                assert(be_bytes(rest as nat, k + 1) == be_bytes((rest / 256) as nat, k).push(
                    digit,
                ));
                assert(next.reverse() =~= seq![digit] + prev.reverse());
                assert(be_bytes((rest / 256) as nat, k).push(digit) + prev.reverse()
                    =~= be_bytes((rest / 256) as nat, k) + next.reverse());
            }
        }
        digits.push(digit);
        rest = rest / 256;
        i = i + 1;
    }
    let mut out: Vec<u8> = Vec::new();
    let mut j: usize = len;
    while j > 0
        invariant
            j <= len,
            digits@.len() == len,
            out@ =~= digits@.reverse().subrange(0, len - j),
        decreases j,
    {
        j = j - 1;
        out.push(digits[j]);
    }
    proof {
        assert(be_bytes(x as nat, len as nat + 0) == be_bytes(rest as nat, 0) + digits@.reverse());
        assert(out@ =~= digits@.reverse());
    }
    out
}

/// The eight bytes of `x`, most significant first.
pub fn u64_to_be_bytes(x: u64) -> (out: Vec<u8>)
    ensures
        out@ == be_bytes(x as nat, 8),
        out@.len() == 8,
        be_value(out@) == x,
{
    proof {
        lemma_be_bytes_len(x as nat, 8);
        lemma_u64_fits(x);
        lemma_be_round_trip(x as nat, 8);
    }
    encode_be(x as u128, 8)
}

/// The sixteen bytes of `x`, most significant first.
pub fn u128_to_be_bytes(x: u128) -> (out: Vec<u8>)
    ensures
        out@ == be_bytes(x as nat, 16),
        out@.len() == 16,
        be_value(out@) == x,
{
    proof {
        lemma_be_bytes_len(x as nat, 16);
        lemma_u128_fits(x);
        lemma_be_round_trip(x as nat, 16);
    }
    encode_be(x, 16)
}

/// The views of the items of a vector, in order.
pub open spec fn seq_view<T: View>(items: Vec<T>) -> Seq<T::V> {
    Seq::new(items@.len(), |i: int| items@[i]@)
}

/// The view of an optional item.
pub open spec fn opt_view<T: View>(item: Option<T>) -> Option<T::V> {
    match item {
        Some(inner) => Some(inner@),
        None => None,
    }
}

/// The views of the items of an optional vector.
pub open spec fn opt_seq_view<T: View>(items: Option<Vec<T>>) -> Option<Seq<T::V>> {
    match items {
        Some(inner) => Some(seq_view(inner)),
        None => None,
    }
}

/// Pushing an item onto a vector pushes its view onto the vector's views.
pub proof fn lemma_seq_view_push<T: View>(before: Vec<T>, after: Vec<T>, item: T)
    requires
        after@ == before@.push(item),
    ensures
        seq_view(after) == seq_view(before).push(item@),
{
    assert(seq_view(after) =~= seq_view(before).push(item@));
}

/// A copy of `bytes`.
pub fn clone_bytes(bytes: &Vec<u8>) -> (copy: Vec<u8>)
    ensures
        copy@ == bytes@,
{
    let mut copy: Vec<u8> = Vec::new();
    let mut i: usize = 0;
    while i < bytes.len()
        invariant
            i <= bytes.len(),
            copy@ =~= bytes@.subrange(0, i as int),
        decreases bytes.len() - i,
    {
        copy.push(bytes[i]);
        i = i + 1;
    }
    assert(bytes@.subrange(0, bytes.len() as int) =~= bytes@);
    copy
}

/// A copy of `bytes`, where there are any.
pub fn clone_optional_bytes(bytes: &Option<Vec<u8>>) -> (copy: Option<Vec<u8>>)
    ensures
        opt_view(copy) == opt_view(*bytes),
{
    match bytes {
        Some(b) => Some(clone_bytes(b)),
        None => None,
    }
}

/// A copy of a list of byte strings.
pub fn clone_bytes_list(list: &Vec<Vec<u8>>) -> (copy: Vec<Vec<u8>>)
    ensures
        seq_view(copy) == seq_view(*list),
{
    let mut copy: Vec<Vec<u8>> = Vec::new();
    let mut i: usize = 0;
    while i < list.len()
        invariant
            i <= list.len(),
            seq_view(copy) =~= seq_view(*list).subrange(0, i as int),
        decreases list.len() - i,
    {
        let item = clone_bytes(&list[i]);
        let ghost before = seq_view(copy);
        copy.push(item);
        assert(seq_view(copy) =~= before.push(list@[i as int]@));
        i = i + 1;
    }
    assert(seq_view(*list).subrange(0, list.len() as int) =~= seq_view(*list));
    copy
}

/// A copy of a list of identifiers.
pub fn clone_ids(ids: &Vec<u64>) -> (copy: Vec<u64>)
    ensures
        copy@ == ids@,
{
    let mut copy: Vec<u64> = Vec::new();
    let mut i: usize = 0;
    while i < ids.len()
        invariant
            i <= ids.len(),
            copy@ =~= ids@.subrange(0, i as int),
        decreases ids.len() - i,
    {
        copy.push(ids[i]);
        i = i + 1;
    }
    assert(ids@.subrange(0, ids.len() as int) =~= ids@);
    copy
}

/// `len` zero bytes.
pub fn zero_bytes(len: usize) -> (bytes: Vec<u8>)
    ensures
        bytes@ == Seq::new(len as nat, |i: int| 0u8),
{
    let mut bytes: Vec<u8> = Vec::new();
    let mut i: usize = 0;
    while i < len
        invariant
            i <= len,
            bytes@ =~= Seq::new(i as nat, |k: int| 0u8),
        decreases len - i,
    {
        bytes.push(0u8);
        i = i + 1;
    }
    bytes
}

} // verus!
