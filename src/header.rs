//! The handshake header on the wire, and the authentication challenge inside it.
//!
//! ```text
//!  offset  size  field
//!    0      4    nonce (big-endian: 0 Hello, 1 RepeatHello, 2 Key, 3 RepeatKey)
//!    4     12    auth challenge
//!   16     24    handshake nonce
//!   40     32    sender's permanent public key
//!   72     16    Poly1305 tag of what follows
//!   88     32    sender's ephemeral public key, encrypted
//! ```
use vstd::prelude::*;

use crate::bytes::{be16_bytes, take_array};

verus! {

/// Size of the handshake header.
pub const HEADER_SIZE: usize = 120;

/// Offset of the auth challenge in the header.
pub const AUTH_OFFSET: usize = 4;

/// Offset of the handshake nonce in the header.
pub const HANDSHAKE_NONCE_OFFSET: usize = 16;

/// Offset of the sender's permanent public key in the header.
pub const PUBLIC_KEY_OFFSET: usize = 40;

/// Offset of the sealed part (tag, then ephemeral key and payload) in the header.
pub const SEALED_OFFSET: usize = 72;

/// How a handshake authenticates its sender.
#[derive(Debug, Clone, Copy, PartialEq, Eq, Structural)]
pub enum AuthType {
    /// No authentication.
    Zero,
    /// By password alone.
    One,
    /// By login and password.
    Two,
}

impl AuthType {
    pub open spec fn spec_code(self) -> u8 {
        match self {
            AuthType::Zero => 0,
            AuthType::One => 1,
            AuthType::Two => 2,
        }
    }

    /// The byte that stands for this type on the wire.
    pub fn code(self) -> (r: u8)
        ensures
            r == self.spec_code(),
    {
        match self {
            AuthType::Zero => 0,
            AuthType::One => 1,
            AuthType::Two => 2,
        }
    }
}

/// The authentication field of a handshake: the type, and seven bytes of a hash that
/// let the receiver find the user.
#[derive(Debug, Clone, Copy)]
pub struct Challenge {
    pub auth_type: u8,
    pub lookup: [u8; 7],
    pub require_packet_auth_and_derivation_count: u16,
    pub additional: u16,
}

impl Challenge {
    /// The twelve bytes of the challenge on the wire.
    pub open spec fn spec_bytes(self) -> Seq<u8> {
        seq![self.auth_type] + self.lookup@ + be16_bytes(
            self.require_packet_auth_and_derivation_count,
        ) + be16_bytes(self.additional)
    }

    pub fn to_bytes(&self) -> (r: [u8; 12])
        ensures
            r@ == self.spec_bytes(),
    {
        let d = self.require_packet_auth_and_derivation_count;
        let a = self.additional;
        let r: [u8; 12] = [
            self.auth_type,
            self.lookup[0],
            self.lookup[1],
            self.lookup[2],
            self.lookup[3],
            self.lookup[4],
            self.lookup[5],
            self.lookup[6],
            (d / 0x100) as u8,
            (d % 0x100) as u8,
            (a / 0x100) as u8,
            (a % 0x100) as u8,
        ];
        assert(r@ =~= self.spec_bytes());
        r
    }

    /// Reads the challenge that starts at `at`.
    pub fn parse(b: &[u8], at: usize) -> (r: Challenge)
        requires
            at + 12 <= b@.len(),
        ensures
            r.auth_type == b@[at as int],
            r.lookup@ == b@.subrange(at + 1, at + 8),
            r.require_packet_auth_and_derivation_count == b@[at + 8] as int * 0x100 + b@[at + 9],
            r.additional == b@[at + 10] as int * 0x100 + b@[at + 11],
    {
        let len = b.len();
        assert(at + 12 <= len);
        let lookup: [u8; 7] = take_array(b, at + 1);
        let d = b[at + 8] as u16 * 0x100 + b[at + 9] as u16;
        let a = b[at + 10] as u16 * 0x100 + b[at + 11] as u16;
        Challenge {
            auth_type: b[at],
            lookup,
            require_packet_auth_and_derivation_count: d,
            additional: a,
        }
    }
}

} // verus!
