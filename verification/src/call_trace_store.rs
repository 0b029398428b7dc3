//! The call trace store as far as it decides anything: the key under which
//! the call traces of a version are kept, and the check that a range read
//! returned every version it was asked for.

use vstd::prelude::*;
use byteorder::{BigEndian, ReadBytesExt};
use crate::bytes::{
    be_bytes, be_value, capacity, lemma_be_bytes_len, lemma_be_bytes_ordered,
    lemma_be_round_trip, lemma_be_value_bound, lemma_u64_fits, sorts_before, u64_to_be_bytes,
};
use crate::types::Version;

verus! {

/// Number of bytes of a key.
pub const KEY_LENGTH: usize = 8;

/// Why a key could not be decoded.
#[derive(Clone, Copy, Debug, PartialEq, Eq, Structural)]
pub enum KeyError {
    /// The key has not exactly eight bytes.
    WrongLength,
}

/// Why a range read was refused.
#[derive(Clone, Copy, Debug, PartialEq, Eq, Structural)]
pub enum StoreError {
    /// The store holds nothing for a version inside the range: it ended
    /// before `expected` (`found` is `None`), or went on with another
    /// version.
    Missing { expected: Version, found: Option<Version> },
}

/// The key of a version: its eight bytes, most significant first, so that
/// keys sort as versions do.
pub open spec fn encoded_key(version: Version) -> Seq<u8> {
    be_bytes(version as nat, 8)
}

/// The version that a key stands for; none unless it has eight bytes.
pub open spec fn decoded_key(data: Seq<u8>) -> Result<Version, KeyError> {
    if data.len() == KEY_LENGTH {
        Ok(be_value(data) as u64)
    } else {
        Err(KeyError::WrongLength)
    }
}

/// Decoding the key of a version gives the version back.
pub proof fn lemma_key_round_trip(version: Version)
    ensures
        decoded_key(encoded_key(version)) == Ok::<Version, KeyError>(version),
{
    lemma_be_bytes_len(version as nat, 8);
    lemma_u64_fits(version);
    lemma_be_round_trip(version as nat, 8);
}

/// Keys sort as versions do: a range read in the order of keys is one in
/// the order of versions.
pub proof fn lemma_keys_sort_as_versions(earlier: Version, later: Version)
    requires
        earlier < later,
    ensures
        sorts_before(encoded_key(earlier), encoded_key(later)),
{
    lemma_u64_fits(later);
    lemma_be_bytes_ordered(earlier as nat, later as nat, 8);
}

/// The key of a version.
pub fn encode_key(version: Version) -> (key: Vec<u8>)
    ensures
        key@ == encoded_key(version),
        decoded_key(key@) == Ok::<Version, KeyError>(version),
{
    proof {
        lemma_key_round_trip(version);
    }
    u64_to_be_bytes(version)
}

/// Reads the first eight bytes of `data` as a big-endian number with
/// `byteorder::ReadBytesExt::read_u64::<BigEndian>`. The call copies eight
/// bytes and assembles them most significant first; it fails exactly if
/// `data` is shorter than that.
#[verifier::external_body]
fn read_u64_big_endian(data: &[u8]) -> (read: Option<u64>)
    ensures
        read is None <==> data@.len() < 8,
        read matches Some(number) ==> number == be_value(data@.subrange(0, 8)),
{
    let mut reader = data;
    reader.read_u64::<BigEndian>().ok()
}

/// The version that a key stands for.
pub fn decode_key(data: &[u8]) -> (result: Result<Version, KeyError>)
    ensures
        result == decoded_key(data@),
{
    if data.len() != KEY_LENGTH {
        return Err(KeyError::WrongLength);
    }
    proof {
        assert(data@.subrange(0, 8) =~= data@);
        lemma_be_value_bound(data@);
        assert(capacity(8) == 0x1_0000_0000_0000_0000) by {
            reveal_with_fuel(capacity, 9);
        }
    }
    match read_u64_big_endian(data) {
        Some(version) => Ok(version),
        None => Err(KeyError::WrongLength),
    }
}

/// How many versions a range read returns: none where the limit is 0 or the
/// start is not below the ledger's version; else the versions from the start
/// up to the ledger's version, and no more than the limit.
pub open spec fn read_limit(start_version: Version, limit: u64, ledger_version: Version) -> nat {
    if limit == 0 || start_version >= ledger_version {
        0
    } else if limit <= ledger_version - start_version {
        limit as nat
    } else {
        (ledger_version - start_version + 1) as nat
    }
}

/// How many versions a range read returns.
pub fn get_read_limit(start_version: Version, limit: u64, ledger_version: Version) -> (count: u64)
    ensures
        count == read_limit(start_version, limit, ledger_version),
        count <= limit,
        count > 0 ==> start_version + count - 1 <= ledger_version,
{
    if limit == 0 || start_version >= ledger_version {
        0
    } else {
        let span = ledger_version - start_version;
        if limit <= span {
            limit
        } else {
            span + 1
        }
    }
}

/// The first `count` entries carry the versions from `start_version` on,
/// one by one.
pub open spec fn continuous<T>(
    entries: Seq<(Version, T)>,
    start_version: Version,
    count: nat,
) -> bool {
    &&& count <= entries.len()
    &&& forall|i: int| 0 <= i < count ==> (#[trigger] entries[i]).0 == start_version + i
}

/// The entries go on from `start_version` up to `place` and no further:
/// they end there, or carry another version there.
pub open spec fn first_gap<T>(
    entries: Seq<(Version, T)>,
    start_version: Version,
    place: nat,
) -> bool {
    &&& continuous(entries, start_version, place)
    &&& place < entries.len() ==> entries[place as int].0 != start_version + place
}

/// What a range read returns, given the entries that the store yielded from
/// `start_version` on, in the order of their keys: the payloads of the
/// versions asked for, or the first version that is missing.
pub fn get_call_traces<T>(
    start_version: Version,
    limit: u64,
    ledger_version: Version,
    entries: Vec<(Version, T)>,
) -> (result: Result<Vec<T>, StoreError>)
    ensures
        result is Ok <==> continuous(
            entries@,
            start_version,
            read_limit(start_version, limit, ledger_version),
        ),
        result matches Ok(payloads) ==> payloads@ == Seq::new(
            read_limit(start_version, limit, ledger_version),
            |i: int| entries@[i].1,
        ),
        result matches Err(StoreError::Missing { expected, found }) ==> {
            let place = (expected - start_version) as nat;
            &&& start_version <= expected
            &&& place < read_limit(start_version, limit, ledger_version)
            &&& first_gap(entries@, start_version, place)
            &&& found == if place < entries@.len() {
                Some(entries@[place as int].0)
            } else {
                None
            }
        },
{
    let count = get_read_limit(start_version, limit, ledger_version);
    let ghost all = entries@;
    let mut i: usize = 0;
    while (i as u64) < count
        invariant
            i as u64 <= count,
            all == entries@,
            count == read_limit(start_version, limit, ledger_version),
            count > 0 ==> start_version + count - 1 <= ledger_version,
            i <= all.len(),
            forall|k: int| 0 <= k < i ==> (#[trigger] all[k]).0 == start_version + k,
        decreases count - i,
    {
        let expected = start_version + i as u64;
        if i >= entries.len() {
            return Err(StoreError::Missing { expected, found: None });
        }
        let version = entries[i].0;
        if version != expected {
            assert(all[i as int].0 != start_version + i);
            return Err(StoreError::Missing { expected, found: Some(version) });
        }
        i = i + 1;
    }
    assert(continuous(all, start_version, count as nat));
    let mut entries = entries;
    entries.truncate(i);
    assert(entries@ =~= all.subrange(0, count as int));
    let mut reversed: Vec<T> = Vec::new();
    while entries.len() > 0
        invariant
            entries@.len() + reversed@.len() == count,
            entries@ =~= all.subrange(0, entries@.len() as int),
            count <= all.len(),
            forall|k: int|
                0 <= k < reversed@.len() ==> (#[trigger] reversed@[k]) == all[count - 1 - k].1,
        decreases entries.len(),
    {
        match entries.pop() {
            Some(entry) => {
                reversed.push(entry.1);
            },
            None => {},
        }
    }
    let mut payloads: Vec<T> = Vec::new();
    while reversed.len() > 0
        invariant
            payloads@.len() + reversed@.len() == count,
            count <= all.len(),
            forall|k: int|
                0 <= k < reversed@.len() ==> (#[trigger] reversed@[k]) == all[count - 1 - k].1,
            forall|k: int| 0 <= k < payloads@.len() ==> (#[trigger] payloads@[k]) == all[k].1,
        decreases reversed.len(),
    {
        match reversed.pop() {
            Some(payload) => {
                payloads.push(payload);
            },
            None => {},
        }
    }
    assert(payloads@ =~= Seq::new(count as nat, |i: int| all[i].1));
    Ok(payloads)
}

} // verus!
