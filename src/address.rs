use vstd::prelude::*;

use crate::codec::{all_base58, base58_bytes, base58_decodes, base58_of, from_base58, to_base58};
use crate::error::{AppError, ErrorKind};

verus! {

/// A ledger account address: exactly 32 bytes. Two addresses are equal when
/// their bytes are.
#[derive(Clone, Copy, Debug, PartialEq, Eq)]
pub struct Address {
    pub bytes: [u8; 32],
}

impl View for Address {
    type V = Seq<u8>;

    open spec fn view(&self) -> Seq<u8> {
        self.bytes@
    }
}

/// Whether `t` is the Base58 text of 32 bytes.
pub open spec fn is_address_text(t: Seq<char>) -> bool {
    base58_decodes(t) && base58_bytes(t).len() == 32
}

/// Copies 32 bytes out of a vector into an array.
fn bytes32(v: &Vec<u8>) -> (a: [u8; 32])
    requires
        v@.len() == 32,
    ensures
        a@ == v@,
{
    let mut a: [u8; 32] = [0u8; 32];
    let mut i: usize = 0;
    while i < 32
        invariant
            i <= 32,
            v@.len() == 32,
            a@.len() == 32,
            forall|j: int| 0 <= j < i ==> a@[j] == v@[j],
        decreases 32 - i,
    {
        a[i] = v[i];
        i += 1;
    }
    assert(a@ =~= v@);
    a
}

/// Parses the Base58 text of an address. Succeeds exactly when the text is
/// the Base58 form of 32 bytes, and then gives those bytes; text that decodes
/// to another length, or holds a character outside the alphabet, is refused
/// with `InvalidAddress`. There is no normalisation.
pub fn parse_address(text: &str) -> (r: Result<Address, AppError>)
    ensures
        r is Ok <==> is_address_text(text@),
        r matches Ok(a) ==> a@ == base58_bytes(text@) && base58_of(a@) == text@,
        !all_base58(text@) ==> r is Err,
        r matches Err(e) ==> e.0 == ErrorKind::InvalidAddress,
{
    match from_base58(text) {
        Ok(v) => {
            if v.len() == 32 {
                Ok(Address { bytes: bytes32(&v) })
            } else {
                Err(AppError(ErrorKind::InvalidAddress))
            }
        },
        Err(_) => Err(AppError(ErrorKind::InvalidAddress)),
    }
}

impl Address {
    /// The address from its 32 bytes.
    pub fn from_bytes(bytes: [u8; 32]) -> (r: Address)
        ensures
            r@ == bytes@,
    {
        Address { bytes }
    }

    /// The canonical Base58 text of the address.
    pub fn to_base58(&self) -> (r: String)
        ensures
            r@ == base58_of(self@),
    {
        to_base58(&self.bytes)
    }
}

} // verus!
