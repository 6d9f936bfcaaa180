//! Content addresses.
//!
//! An address is the full form of a hash as the store hands it out: three
//! bytes that tell the kind of thing addressed, thirty-two bytes of digest and
//! four bytes of network location. The library never looks inside an address,
//! with one exception: a link target is followed to a record only if it is the
//! address of an action.

use hdk::prelude::AnyLinkableHash;
use vstd::prelude::*;

verus! {

/// Number of bytes in a full address.
pub const ADDRESS_LEN: usize = 39;

/// The three leading bytes of the address of an action.
pub open spec fn action_prefix() -> Seq<u8> {
    seq![0x84u8, 0x29u8, 0x24u8]
}

/// Whether `raw` is the full form of an action's address: the right length,
/// led by the action prefix.
pub open spec fn is_action_address(raw: Seq<u8>) -> bool {
    &&& raw.len() == ADDRESS_LEN
    &&& raw.subrange(0, 3) == action_prefix()
}

/// A content address, as raw bytes.
#[derive(Debug, PartialEq, Eq)]
pub struct Address {
    pub raw: Vec<u8>,
}

impl View for Address {
    type V = Seq<u8>;

    open spec fn view(&self) -> Seq<u8> {
        self.raw@
    }
}

impl DeepView for Address {
    type V = Seq<u8>;

    open spec fn deep_view(&self) -> Seq<u8> {
        self@
    }
}

impl Clone for Address {
    fn clone(&self) -> (copy: Address)
        ensures
            copy@ == self@,
    {
        Address { raw: copy_bytes(&self.raw) }
    }
}

/// A fresh vector with the bytes of `bytes`.
pub fn copy_bytes(bytes: &Vec<u8>) -> (copy: Vec<u8>)
    ensures
        copy@ == bytes@,
{
    let mut copy: Vec<u8> = Vec::with_capacity(bytes.len());
    let mut i: usize = 0;
    while i < bytes.len()
        invariant
            i <= bytes.len(),
            copy@ == bytes@.take(i as int),
        decreases bytes.len() - i,
    {
        copy.push(bytes[i]);
        assert(bytes@.take(i + 1) =~= bytes@.take(i as int).push(bytes@[i as int]));
        i += 1;
    }
    assert(bytes@.take(bytes.len() as int) =~= bytes@);
    copy
}

/// Whether two byte vectors hold the same bytes.
pub fn bytes_equal(a: &Vec<u8>, b: &Vec<u8>) -> (same: bool)
    ensures
        same == (a@ == b@),
{
    if a.len() != b.len() {
        return false;
    }
    let mut i: usize = 0;
    while i < a.len()
        invariant
            a.len() == b.len(),
            i <= a.len(),
            a@.take(i as int) == b@.take(i as int),
        decreases a.len() - i,
    {
        if a[i] != b[i] {
            return false;
        }
        assert(a@.take(i + 1) =~= a@.take(i as int).push(a@[i as int]));
        assert(b@.take(i + 1) =~= b@.take(i as int).push(b@[i as int]));
        i += 1;
    }
    assert(a@.take(a.len() as int) =~= a@);
    assert(b@.take(b.len() as int) =~= b@);
    true
}

/// `AnyLinkableHash::try_from_raw_39`, `AnyLinkableHash::into_action_hash` and
/// `HoloHash::get_raw_39` of holo_hash, reached through hdk's prelude.
///
/// Taken on trust: the bytes are read as a linkable hash, which succeeds for
/// 39 bytes led by the entry, action or external prefix; the hash comes back
/// as an action hash exactly when the prefix is the action prefix; and its raw
/// bytes are then the bytes that went in.
#[verifier::external_body]
fn raw_action_hash(raw: &Vec<u8>) -> (out: Option<Vec<u8>>)
    ensures
        out is Some <==> is_action_address(raw@),
        out matches Some(bytes) ==> bytes@ == raw@,
{
    match AnyLinkableHash::try_from_raw_39(raw.clone()) {
        Ok(hash) => match hash.into_action_hash() {
            Some(action) => Some(action.get_raw_39().to_vec()),
            None => None,
        },
        Err(_) => None,
    }
}

impl Address {
    /// An address with the given raw bytes.
    pub fn from_raw(raw: Vec<u8>) -> (address: Address)
        ensures
            address@ == raw@,
    {
        Address { raw }
    }

    /// Whether `self` and `other` are the same address.
    pub fn same_as(&self, other: &Address) -> (same: bool)
        ensures
            same == (self@ == other@),
    {
        bytes_equal(&self.raw, &other.raw)
    }

    /// The address as the address of an action, if it is one.
    pub fn to_action(&self) -> (action: Option<Address>)
        ensures
            action is Some <==> is_action_address(self@),
            action matches Some(a) ==> a@ == self@,
    {
        match raw_action_hash(&self.raw) {
            Some(bytes) => Some(Address { raw: bytes }),
            None => None,
        }
    }
}

} // verus!
