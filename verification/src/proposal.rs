//! Location sets and their deterministic identifiers.
//!
//! A proposed set is identified by a 32-byte BLAKE2b digest over a
//! deterministic, self-delimiting encoding of its `(locations,
//! bootstrappers)` pair: each list is prefixed with its length as eight
//! little-endian bytes, each location contributes its two fixed-point
//! coordinate words as little-endian bytes, and each bootstrapper
//! contributes its length-prefixed identity bytes.  Equal pairs therefore
//! always produce equal identifiers, which is what the duplicate check of
//! the validator rests on.

use vstd::prelude::*;
use vstd::bytes::{spec_u64_to_le_bytes, u64_to_le_bytes};
use crate::geodesy::Location;

verus! {

/// A proposer-supplied identity, carried only as opaque bytes: validation
/// never interprets who bootstraps a set, it only folds the identities into
/// the set's identifier.
#[derive(Clone, PartialEq, Eq, Debug)]
pub struct AccountId {
    pub bytes: Vec<u8>,
}

/// A batch of meetup locations proposed for registration as one community,
/// together with the identities that bootstrap it.
#[derive(Clone, PartialEq, Eq, Debug)]
pub struct LocationSet {
    pub locations: Vec<Location>,
    pub bootstrappers: Vec<AccountId>,
}

/// The 32-byte digest identifying a location set in the registry.
#[derive(Clone, PartialEq, Eq, Debug)]
pub struct CurrencyIdentifier {
    pub bytes: Vec<u8>,
}

/// Encoding of one location: its two fixed-point words, little endian.
pub open spec fn encode_location_val(l: Location) -> Seq<u8> {
    spec_u64_to_le_bytes(l.lat.bits as u64) + spec_u64_to_le_bytes(l.lon.bits as u64)
}

/// Encoding of a list of locations, in order.
pub open spec fn encode_locations_val(locs: Seq<Location>) -> Seq<u8>
    decreases locs.len(),
{
    if locs.len() == 0 {
        Seq::empty()
    } else {
        encode_locations_val(locs.drop_last()) + encode_location_val(locs.last())
    }
}

/// Encoding of one bootstrapper identity: its byte length, then its bytes.
pub open spec fn encode_account_val(bytes: Seq<u8>) -> Seq<u8> {
    spec_u64_to_le_bytes(bytes.len() as u64) + bytes
}

/// Encoding of a list of bootstrapper identities, in order.
pub open spec fn encode_accounts_val(accounts: Seq<AccountId>) -> Seq<u8>
    decreases accounts.len(),
{
    if accounts.len() == 0 {
        Seq::empty()
    } else {
        encode_accounts_val(accounts.drop_last()) + encode_account_val(accounts.last().bytes@)
    }
}

/// Encoding of the whole `(locations, bootstrappers)` pair: both lists,
/// each prefixed with its length.
pub open spec fn encode_proposal_val(s: LocationSet) -> Seq<u8> {
    spec_u64_to_le_bytes(s.locations@.len() as u64) + encode_locations_val(s.locations@)
        + spec_u64_to_le_bytes(s.bootstrappers@.len() as u64) + encode_accounts_val(
        s.bootstrappers@,
    )
}

/// The identifier of a set: the BLAKE2b-256 digest of its encoding.
pub open spec fn location_set_id_val(s: LocationSet) -> Seq<u8> {
    blake2b_256_of(encode_proposal_val(s))
}

/// The 32-byte digest `blake2b_simd` computes for a byte string: a
/// deterministic function of the input bytes alone.
pub uninterp spec fn blake2b_256_of(data: Seq<u8>) -> Seq<u8>;

/// Relies on `blake2b_simd::Params::hash` with `hash_length(32)`: an
/// unkeyed BLAKE2b digest of the input, truncated by parameter to 32
/// bytes, depending on the input bytes alone.
#[verifier::external_body]
fn blake2b_256(data: &Vec<u8>) -> (digest: Vec<u8>)
    ensures
        digest@ == blake2b_256_of(data@),
        digest@.len() == 32,
{
    blake2b_simd::Params::new().hash_length(32).hash(data.as_slice()).as_bytes().to_vec()
}

/// Appends the eight little-endian bytes of a word.
fn append_u64_le(out: &mut Vec<u8>, x: u64)
    ensures
        final(out)@ == old(out)@ + spec_u64_to_le_bytes(x),
{
    let mut word = u64_to_le_bytes(x);
    out.append(&mut word);
}

/// Appends a copy of the given bytes.
fn append_bytes(out: &mut Vec<u8>, bytes: &Vec<u8>)
    ensures
        final(out)@ == old(out)@ + bytes@,
{
    let n = bytes.len();
    let mut j: usize = 0;
    while j < n
        invariant
            j <= n,
            n == bytes@.len(),
            out@ == old(out)@ + bytes@.take(j as int),
        decreases n - j,
    {
        out.push(bytes[j]);
        j += 1;
        proof {
            assert(bytes@.take(j as int) =~= bytes@.take(j - 1) + seq![bytes@[j - 1]]);
        }
    }
    proof {
        assert(bytes@.take(n as int) =~= bytes@);
    }
}

/// Produces the deterministic encoding of the `(locations, bootstrappers)`
/// pair of a set.
pub fn encode_proposal(set: &LocationSet) -> (bytes: Vec<u8>)
    ensures
        bytes@ == encode_proposal_val(*set),
{
    let mut out: Vec<u8> = Vec::new();
    append_u64_le(&mut out, set.locations.len() as u64);
    let ghost header = out@;

    let n = set.locations.len();
    let mut i: usize = 0;
    while i < n
        invariant
            i <= n,
            n == set.locations@.len(),
            out@ == header + encode_locations_val(set.locations@.take(i as int)),
        decreases n - i,
    {
        let l = set.locations[i];
        append_u64_le(&mut out, l.lat.bits as u64);
        append_u64_le(&mut out, l.lon.bits as u64);
        i += 1;
        proof {
            assert(set.locations@.take(i as int).drop_last() =~= set.locations@.take(i - 1));
            assert(set.locations@.take(i as int).last() == set.locations@[i - 1]);
        }
    }
    proof {
        assert(set.locations@.take(n as int) =~= set.locations@);
    }

    append_u64_le(&mut out, set.bootstrappers.len() as u64);
    let ghost mid = out@;

    let m = set.bootstrappers.len();
    let mut k: usize = 0;
    while k < m
        invariant
            k <= m,
            m == set.bootstrappers@.len(),
            out@ == mid + encode_accounts_val(set.bootstrappers@.take(k as int)),
        decreases m - k,
    {
        let account = &set.bootstrappers[k];
        append_u64_le(&mut out, account.bytes.len() as u64);
        append_bytes(&mut out, &account.bytes);
        k += 1;
        proof {
            assert(set.bootstrappers@.take(k as int).drop_last() =~= set.bootstrappers@.take(
                k - 1,
            ));
            assert(set.bootstrappers@.take(k as int).last() == set.bootstrappers@[k - 1]);
        }
    }
    proof {
        assert(set.bootstrappers@.take(m as int) =~= set.bootstrappers@);
    }
    out
}

/// Computes the identifier of a set: the BLAKE2b-256 digest of its
/// deterministic encoding.  Equal `(locations, bootstrappers)` pairs get
/// equal identifiers.
pub fn location_set_id(set: &LocationSet) -> (id: CurrencyIdentifier)
    ensures
        id.bytes@ == location_set_id_val(*set),
        id.bytes@.len() == 32,
{
    let encoded = encode_proposal(set);
    CurrencyIdentifier { bytes: blake2b_256(&encoded) }
}

/// Copies a byte string.
pub fn copy_bytes(bytes: &Vec<u8>) -> (copy: Vec<u8>)
    ensures
        copy@ == bytes@,
{
    let mut out: Vec<u8> = Vec::new();
    append_bytes(&mut out, bytes);
    out
}

/// Compares two byte strings for equality of contents.
pub fn bytes_eq(a: &Vec<u8>, b: &Vec<u8>) -> (eq: bool)
    ensures
        eq <==> a@ == b@,
{
    if a.len() != b.len() {
        return false;
    }
    let n = a.len();
    let mut i: usize = 0;
    while i < n
        invariant
            i <= n,
            n == a@.len(),
            a@.len() == b@.len(),
            forall|j: int| 0 <= j < i ==> a@[j] == b@[j],
        decreases n - i,
    {
        if a[i] != b[i] {
            return false;
        }
        i += 1;
    }
    proof {
        assert(a@ =~= b@);
    }
    true
}

} // verus!
