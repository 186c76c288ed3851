//! Stateless cryptographic steps: shared-secret derivation, password hashing, and
//! sealing and opening of packets.
use vstd::prelude::*;

use crate::bytes::{concat, le32_bytes};
use crate::header::{AuthType, Challenge};
use crate::message::Message;
use crate::nacl::{
    open_of, open_precomputed, precompute, precompute_of, scalarmult, scalarmult_of,
    seal_of, seal_precomputed, sha256, sha256_of,
};

verus! {

/// The secret shared by the holder of `sk` and the holder of the private key behind `pk`.
/// With a password hash, the Diffie-Hellman product and the hash, in that order, are
/// hashed together; without one, it is NaCl's precomputed `box` key.
pub open spec fn shared_secret_of(sk: Seq<u8>, pk: Seq<u8>, password_hash: Option<Seq<u8>>) -> Seq<
    u8,
> {
    match password_hash {
        Some(p) => sha256_of(scalarmult_of(sk, pk) + p),
        None => precompute_of(pk, sk),
    }
}

/// The hash whose bytes 1 to 7 look a user up, for a challenge of the given type.
pub open spec fn lookup_hash_of(login: Seq<u8>, password: Seq<u8>, auth_type: AuthType) -> Seq<u8> {
    match auth_type {
        AuthType::Two => sha256_of(login),
        _ => sha256_of(sha256_of(password)),
    }
}

/// The 24-byte packet nonce: the counter, little-endian, in the first or the second
/// four-byte slot, the rest zero.
pub open spec fn counter_nonce(counter: u32, second_slot: bool) -> Seq<u8> {
    if second_slot {
        Seq::new(4, |i: int| 0u8) + le32_bytes(counter) + Seq::new(16, |i: int| 0u8)
    } else {
        le32_bytes(counter) + Seq::new(20, |i: int| 0u8)
    }
}

/// Derives the secret shared with the holder of `her_public_key`.
///
/// `password_hash` is a 32-byte value known to both ends that must be pseudorandom
/// (a SHA-256 of a password is; what the peer sends in its `auth` field is not).
pub fn get_shared_secret(
    my_private_key: [u8; 32],
    her_public_key: [u8; 32],
    password_hash: Option<[u8; 32]>,
) -> (r: [u8; 32])
    ensures
        r@ == shared_secret_of(
            my_private_key@,
            her_public_key@,
            match password_hash {
                Some(p) => Some(p@),
                None => None,
            },
        ),
{
    match password_hash {
        Some(passwd) => {
            let key: [u8; 32] = match scalarmult(&my_private_key, &her_public_key) {
                Some(q) => q,
                None => {
                    let z = [0u8; 32];
                    assert(z@ =~= Seq::new(32, |i: int| 0u8));
                    z
                },
            };
            let both = concat(key.as_slice(), passwd.as_slice());
            sha256(both.as_slice())
        },
        None => precompute(&her_public_key, &my_private_key),
    }
}

/// Hashes a password for a handshake: returns `SHA-256(password)`, which is mixed into
/// the shared secret, and the challenge that names the user to the receiver.
pub fn hash_password(login: &[u8], password: &[u8], auth_type: AuthType) -> (r: (
    [u8; 32],
    Challenge,
))
    requires
        auth_type != AuthType::Zero,
    ensures
        r.0@ == sha256_of(password@),
        r.1.auth_type == auth_type.spec_code(),
        r.1.lookup@ == lookup_hash_of(login@, password@, auth_type).subrange(1, 8),
        r.1.require_packet_auth_and_derivation_count == 0,
        r.1.additional == 0,
{
    let secret_out = sha256(password);
    let tmp_buf = match auth_type {
        AuthType::Two => sha256(login),
        _ => sha256(secret_out.as_slice()),
    };
    let lookup: [u8; 7] = [
        tmp_buf[1],
        tmp_buf[2],
        tmp_buf[3],
        tmp_buf[4],
        tmp_buf[5],
        tmp_buf[6],
        tmp_buf[7],
    ];
    assert(lookup@ =~= tmp_buf@.subrange(1, 8));
    let challenge_out = Challenge {
        auth_type: auth_type.code(),
        lookup,
        require_packet_auth_and_derivation_count: 0,
        additional: 0,
    };
    (secret_out, challenge_out)
}

/// The 24-byte nonce with `counter` in its first or second slot.
fn make_counter_nonce(counter: u32, second_slot: bool) -> (r: [u8; 24])
    ensures
        r@ == counter_nonce(counter, second_slot),
{
    let b0 = (counter % 0x100) as u8;
    let b1 = ((counter / 0x100) % 0x100) as u8;
    let b2 = ((counter / 0x10000) % 0x100) as u8;
    let b3 = (counter / 0x1000000) as u8;
    let mut r = [0u8; 24];
    let at: usize = if second_slot {
        4
    } else {
        0
    };
    r[at] = b0;
    r[at + 1] = b1;
    r[at + 2] = b2;
    r[at + 3] = b3;
    assert(r@ =~= counter_nonce(counter, second_slot));
    r
}

/// Seals the message for the packet counter `nonce`. The initiator writes the counter in
/// the second slot of the 24-byte nonce and the responder in the first, so the two
/// directions never share a nonce.
pub fn encrypt(nonce: u32, msg: &mut Message, secret: [u8; 32], is_initiator: bool)
    requires
        old(msg).wf(),
        old(msg).pad >= 16,
    ensures
        sealed_with(counter_nonce(nonce, is_initiator), secret@, *old(msg), *final(msg)),
{
    let nonce_bytes = make_counter_nonce(nonce, is_initiator);
    encrypt_rnd_nonce(nonce_bytes, msg, secret);
}

/// Opens a message sealed by the peer's `encrypt` for the packet counter `nonce`: the
/// initiator reads the counter from the first slot, the responder from the second.
pub fn decrypt(nonce: u32, msg: &mut Message, secret: [u8; 32], is_initiator: bool) -> (r: Result<
    (),
    (),
>)
    requires
        old(msg).wf(),
    ensures
        opened_with(counter_nonce(nonce, !is_initiator), secret@, *old(msg), r is Ok, *final(msg)),
{
    let nonce_bytes = make_counter_nonce(nonce, !is_initiator);
    decrypt_rnd_nonce(nonce_bytes, msg, secret)
}

/// `m1` is `m0` sealed with `nonce` and `secret`: 16 bytes longer, the tag taken from
/// the headroom, and opening it with the same nonce and secret gives `m0` back.
pub open spec fn sealed_with(nonce: Seq<u8>, secret: Seq<u8>, m0: Message, m1: Message) -> bool {
    &&& m1.wf()
    &&& m1.bytes@ == seal_of(secret, nonce, m0.bytes@)
    &&& m1.bytes@.len() == m0.bytes@.len() + 16
    &&& m1.pad == m0.pad - 16
    &&& open_of(secret, nonce, m1.bytes@) == Some(m0.bytes@)
}

/// `m0` opened with `nonce` and `secret`: on success (`ok`) `m1` holds the plaintext,
/// 16 bytes shorter, the room given back to the headroom; on failure `m1` is `m0`.
pub open spec fn opened_with(nonce: Seq<u8>, secret: Seq<u8>, m0: Message, ok: bool, m1: Message) -> bool {
    &&& m1.wf()
    &&& ok <==> m0.bytes@.len() >= 16 && open_of(secret, nonce, m0.bytes@) is Some
    &&& ok ==> m1.bytes@ == open_of(secret, nonce, m0.bytes@)->0 && m1.pad == m0.pad + 16
        && m1.bytes@.len() + 16 == m0.bytes@.len()
    &&& !ok ==> m1 == m0
}

/// Encrypts and authenticates the message in place; it grows by the 16-byte tag, which
/// is taken from the headroom. Opening the result with the same nonce and secret gives
/// the message back.
pub fn encrypt_rnd_nonce(nonce: [u8; 24], msg: &mut Message, secret: [u8; 32])
    requires
        old(msg).wf(),
        old(msg).pad >= 16,
    ensures
        sealed_with(nonce@, secret@, *old(msg), *final(msg)),
{
    let sealed = seal_precomputed(msg.bytes(), &nonce, &secret);
    msg.replace(sealed);
}

/// Checks and decrypts the message in place; it shrinks by the 16-byte tag. On failure
/// the message is left as it was.
pub fn decrypt_rnd_nonce(nonce: [u8; 24], msg: &mut Message, secret: [u8; 32]) -> (r: Result<
    (),
    (),
>)
    requires
        old(msg).wf(),
    ensures
        opened_with(nonce@, secret@, *old(msg), r is Ok, *final(msg)),
{
    if msg.len() < 16 {
        return Err(());
    }
    match open_precomputed(msg.bytes(), &nonce, &secret) {
        Some(plain) => {
            msg.replace(plain);
            Ok(())
        },
        None => Err(()),
    }
}

/// Opening what was sealed with the same nonce and secret succeeds and gives back the
/// message that was sealed, headroom and length included.
pub proof fn lemma_rnd_nonce_round_trip(
    nonce: Seq<u8>,
    secret: Seq<u8>,
    m0: Message,
    m1: Message,
    ok: bool,
    m2: Message,
)
    requires
        sealed_with(nonce, secret, m0, m1),
        opened_with(nonce, secret, m1, ok, m2),
    ensures
        ok,
        m2.bytes@ == m0.bytes@,
        m2.pad == m0.pad,
{
}

} // verus!
