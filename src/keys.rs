//! A node's IPv6 address, derived from its permanent public key.
use vstd::prelude::*;

use crate::bytes::is_zero;
use crate::bytes::all_zero;
use crate::nacl::{sha512, sha512_of};

verus! {

/// Why a public key cannot name a peer.
#[derive(Debug, Clone, Copy, PartialEq, Eq, Structural)]
pub enum KeyError {
    /// The key does not hash to an address in `fc00::/8`.
    BadPublicKey,
    /// The key is all zero.
    ZeroPublicKey,
    /// The session was asked for a protocol that is not implemented.
    UnsupportedProtocol,
}

/// The address of a key: the first 16 bytes of SHA-512 applied twice.
pub open spec fn ip6_of(key: Seq<u8>) -> Seq<u8> {
    sha512_of(sha512_of(key)).subrange(0, 16)
}

/// A key names a node when its address starts with `0xfc`.
pub open spec fn ip6_valid(key: Seq<u8>) -> bool {
    ip6_of(key)[0] == 0xfc
}

/// The IPv6 address of the node whose public key is `key`.
pub fn ip6_for_key(key: &[u8; 32]) -> (r: Result<[u8; 16], KeyError>)
    ensures
        all_zero(key@) ==> r == Err::<[u8; 16], _>(KeyError::ZeroPublicKey),
        !all_zero(key@) && !ip6_valid(key@) ==> r == Err::<[u8; 16], _>(KeyError::BadPublicKey),
        !all_zero(key@) && ip6_valid(key@) ==> r is Ok && r->Ok_0@ == ip6_of(key@),
{
    if is_zero(key.as_slice()) {
        return Err(KeyError::ZeroPublicKey);
    }
    let h1 = sha512(key.as_slice());
    let h2 = sha512(h1.as_slice());
    if h2[0] != 0xfc {
        return Err(KeyError::BadPublicKey);
    }
    let mut ip = [0u8; 16];
    let mut i: usize = 0;
    while i < 16
        invariant
            0 <= i <= 16,
            h2@.len() == 64,
            forall|j: int| 0 <= j < i ==> ip@[j] == h2@[j],
        decreases 16 - i,
    {
        ip[i] = h2[i];
        i = i + 1;
    }
    assert(ip@ =~= ip6_of(key@));
    Ok(ip)
}

} // verus!
