use crypto_auth::auth::CryptoAuth;
use crypto_auth::crypto::{encrypt_rnd_nonce, get_shared_secret};
use crypto_auth::header::AuthType;
use crypto_auth::keys::ip6_for_key;
use crypto_auth::message::Message;
use crypto_auth::session::{DecryptErr, DecryptError, Session, State};
use sodiumoxide::crypto::hash::sha512;

/// An authenticator whose public key hashes to a valid address.
fn valid_ctx() -> CryptoAuth {
    sodiumoxide::init().unwrap();
    loop {
        let ctx = CryptoAuth::new(None);
        if ip6_for_key(&ctx.public_key()).is_ok() {
            return ctx;
        }
    }
}

/// Two nodes and a session on each side pointing to the other, created at `now`.
fn pair_at(now: u32) -> (CryptoAuth, Session, CryptoAuth, Session) {
    let a_ctx = valid_ctx();
    let b_ctx = valid_ctx();
    let a = Session::new(b_ctx.public_key(), false, Some("to-b".to_string()), false, now).unwrap();
    let b = Session::new(a_ctx.public_key(), false, Some("to-a".to_string()), false, now).unwrap();
    (a_ctx, a, b_ctx, b)
}

fn pair() -> (CryptoAuth, Session, CryptoAuth, Session) {
    pair_at(0)
}

fn outgoing(payload: &[u8]) -> Message {
    let mut m = Message::new(512);
    m.push_bytes(payload).unwrap();
    m
}

/// The packet as the receiver gets it, in an aligned buffer with headroom.
fn deliver(m: &Message) -> Message {
    Message::from_bytes(64, m.bytes().to_vec())
}

fn send(from: &mut Session, ctx: &CryptoAuth, payload: &[u8], now: u32) -> Message {
    let mut m = outgoing(payload);
    from.encrypt(ctx, &mut m, now).unwrap();
    deliver(&m)
}

fn prefix(m: &Message) -> u32 {
    let b = m.bytes();
    u32::from_be_bytes([b[0], b[1], b[2], b[3]])
}

/// Runs the handshake and one traffic packet each way.
fn established_pair() -> (CryptoAuth, Session, CryptoAuth, Session) {
    let (a_ctx, mut a, b_ctx, mut b) = pair();
    let mut hello = send(&mut a, &a_ctx, b"", 0);
    b.decrypt(&b_ctx, &mut hello, 0).unwrap();
    let mut key = send(&mut b, &b_ctx, b"", 0);
    a.decrypt(&a_ctx, &mut key, 0).unwrap();
    let mut t1 = send(&mut a, &a_ctx, b"ping", 0);
    b.decrypt(&b_ctx, &mut t1, 0).unwrap();
    let mut t2 = send(&mut b, &b_ctx, b"pong", 0);
    a.decrypt(&a_ctx, &mut t2, 0).unwrap();
    (a_ctx, a, b_ctx, b)
}

#[test]
fn full_handshake_and_traffic() {
    let (a_ctx, mut a, b_ctx, mut b) = pair();
    let mut hello = send(&mut a, &a_ctx, b"", 0);
    assert_eq!(prefix(&hello), 0);
    assert_eq!(hello.len(), 120);
    assert_eq!(a.get_state(), State::SentHello);
    b.decrypt(&b_ctx, &mut hello, 0).unwrap();
    assert_eq!(b.get_state(), State::ReceivedHello);
    assert_eq!(hello.len(), 0);

    let mut key = send(&mut b, &b_ctx, b"", 0);
    assert_eq!(prefix(&key), 2);
    assert_eq!(b.get_state(), State::SentKey);
    a.decrypt(&a_ctx, &mut key, 0).unwrap();
    assert_eq!(a.get_state(), State::ReceivedKey);

    let mut t1 = send(&mut a, &a_ctx, b"payload1", 0);
    assert_eq!(prefix(&t1), 4);
    b.decrypt(&b_ctx, &mut t1, 0).unwrap();
    assert_eq!(t1.bytes(), b"payload1");
    let mut t2 = send(&mut a, &a_ctx, b"payload2", 0);
    assert_eq!(prefix(&t2), 5);
    b.decrypt(&b_ctx, &mut t2, 0).unwrap();
    assert_eq!(t2.bytes(), b"payload2");
    assert_eq!(b.get_state(), State::Established);

    let mut back = send(&mut b, &b_ctx, b"answer!!", 0);
    a.decrypt(&a_ctx, &mut back, 0).unwrap();
    assert_eq!(back.bytes(), b"answer!!");
    assert_eq!(a.get_state(), State::Established);
    assert_eq!(a.stats().received_packets, 1);
    assert_eq!(b.stats().received_packets, 2);
}

#[test]
fn handshake_carries_payload() {
    let (a_ctx, mut a, b_ctx, mut b) = pair();
    let mut hello = send(&mut a, &a_ctx, b"data", 0);
    assert_eq!(hello.len(), 124);
    b.decrypt(&b_ctx, &mut hello, 0).unwrap();
    assert_eq!(hello.bytes(), b"data");
}

#[test]
fn crossed_hellos_converge() {
    let (a_ctx, mut a, b_ctx, mut b) = pair();
    let mut ha = send(&mut a, &a_ctx, b"", 0);
    let mut hb = send(&mut b, &b_ctx, b"", 0);
    b.decrypt(&b_ctx, &mut ha, 0).unwrap();
    a.decrypt(&a_ctx, &mut hb, 0).unwrap();
    // Exactly one side gave way and now answers with a key packet.
    let a_greater = a_ctx.public_key() > b_ctx.public_key();
    let (winner_ctx, winner, loser_ctx, loser) = if a_greater {
        (&a_ctx, &mut a, &b_ctx, &mut b)
    } else {
        (&b_ctx, &mut b, &a_ctx, &mut a)
    };
    assert_eq!(winner.get_state(), State::SentHello);
    assert_eq!(loser.get_state(), State::ReceivedHello);
    let mut key = send(loser, loser_ctx, b"", 0);
    assert_eq!(prefix(&key), 2);
    winner.decrypt(winner_ctx, &mut key, 0).unwrap();
    let mut t = send(winner, winner_ctx, b"win!", 0);
    loser.decrypt(loser_ctx, &mut t, 0).unwrap();
    assert_eq!(t.bytes(), b"win!");
    let mut t = send(loser, loser_ctx, b"lose", 0);
    winner.decrypt(winner_ctx, &mut t, 0).unwrap();
    assert_eq!(t.bytes(), b"lose");
    assert_eq!(winner.get_state(), State::Established);
    assert_eq!(loser.get_state(), State::Established);
}

#[test]
fn repeat_hello_after_established_keeps_state() {
    let (a_ctx, mut a, b_ctx, mut b) = pair();
    let mut hello = send(&mut a, &a_ctx, b"", 0);
    let mut repeat = send(&mut a, &a_ctx, b"", 0);
    assert_eq!(prefix(&repeat), 1);
    b.decrypt(&b_ctx, &mut hello, 0).unwrap();
    let mut key = send(&mut b, &b_ctx, b"", 0);
    a.decrypt(&a_ctx, &mut key, 0).unwrap();
    let mut t = send(&mut a, &a_ctx, b"data", 0);
    b.decrypt(&b_ctx, &mut t, 0).unwrap();
    assert_eq!(b.get_state(), State::Established);
    let nonce_before = b.session_mut.next_nonce;
    let r = b.decrypt(&b_ctx, &mut repeat, 0);
    assert_eq!(r, Err(DecryptError::DecryptErr(DecryptErr::InvalidPacket)));
    assert_eq!(b.get_state(), State::Established);
    assert_eq!(b.session_mut.next_nonce, nonce_before);
}

#[test]
fn duplicate_hello_is_invalid() {
    let (a_ctx, mut a, b_ctx, mut b) = pair();
    let hello = send(&mut a, &a_ctx, b"", 0);
    let mut first = deliver(&hello);
    let mut again = deliver(&hello);
    b.decrypt(&b_ctx, &mut first, 0).unwrap();
    let r = b.decrypt(&b_ctx, &mut again, 0);
    assert_eq!(r, Err(DecryptError::DecryptErr(DecryptErr::InvalidPacket)));
    assert_eq!(b.get_state(), State::ReceivedHello);
}

/// A hello from `from_ctx` to `to_pub` that carries `temp` as its ephemeral key.
fn forged_hello(from_ctx: &CryptoAuth, to_pub: [u8; 32], temp: [u8; 32]) -> Message {
    let hs_nonce = [7u8; 24];
    let secret = get_shared_secret(from_ctx.private_key(), to_pub, None);
    let mut inner = Message::new(64);
    inner.push_bytes(&temp).unwrap();
    encrypt_rnd_nonce(hs_nonce, &mut inner, secret);
    let mut packet = vec![0u8, 0, 0, 0];
    packet.extend_from_slice(&[0u8; 12]);
    packet.extend_from_slice(&hs_nonce);
    packet.extend_from_slice(&from_ctx.public_key());
    packet.extend_from_slice(inner.bytes());
    Message::from_bytes(64, packet)
}

#[test]
fn zero_temp_key_is_wiseguy() {
    let (a_ctx, _a, b_ctx, mut b) = pair();
    let mut m = forged_hello(&a_ctx, b_ctx.public_key(), [0u8; 32]);
    let r = b.decrypt(&b_ctx, &mut m, 0);
    assert_eq!(r, Err(DecryptError::DecryptErr(DecryptErr::Wiseguy)));
    assert_eq!(b.get_state(), State::Init);
}

#[test]
fn forged_hello_with_good_temp_key_is_accepted() {
    let (a_ctx, _a, b_ctx, mut b) = pair();
    let mut m = forged_hello(&a_ctx, b_ctx.public_key(), [9u8; 32]);
    b.decrypt(&b_ctx, &mut m, 0).unwrap();
    assert_eq!(b.get_state(), State::ReceivedHello);
    assert_eq!(b.session_mut.her_temp_pub_key, [9u8; 32]);
}

#[test]
fn traffic_before_handshake_is_no_session() {
    let (_a_ctx, _a, b_ctx, mut b) = pair();
    let mut packet = vec![0u8, 0, 0, 5];
    packet.extend_from_slice(&[1u8; 20]);
    let mut m = Message::from_bytes(64, packet);
    let r = b.decrypt(&b_ctx, &mut m, 0);
    assert_eq!(r, Err(DecryptError::DecryptErr(DecryptErr::NoSession)));
}

#[test]
fn ip_restricted_user_with_wrong_key() {
    let (a_ctx, mut a, mut b_ctx, mut b) = pair();
    b_ctx.add_user_ipv6(b"pass".to_vec(), Some(b"alice".to_vec()), Some([0xfcu8; 16])).unwrap();
    a.set_auth(Some(b"pass".to_vec()), Some(b"alice".to_vec()));
    let mut hello = send(&mut a, &a_ctx, b"", 0);
    let r = b.decrypt(&b_ctx, &mut hello, 0);
    assert_eq!(r, Err(DecryptError::DecryptErr(DecryptErr::IpRestricted)));
    // With the right address the same user gets in.
    let a_ip6 = ip6_for_key(&a_ctx.public_key()).unwrap();
    b_ctx.remove_users(Some(b"alice".to_vec()));
    b_ctx.add_user_ipv6(b"pass".to_vec(), Some(b"alice".to_vec()), Some(a_ip6)).unwrap();
    let mut hello = send(&mut a, &a_ctx, b"", 0);
    b.decrypt(&b_ctx, &mut hello, 0).unwrap();
    assert_eq!(b.get_state(), State::ReceivedHello);
}

#[test]
fn require_auth_without_user() {
    let a_ctx = valid_ctx();
    let b_ctx = valid_ctx();
    let mut a = Session::new(b_ctx.public_key(), false, None, false, 0).unwrap();
    let mut b = Session::new(a_ctx.public_key(), true, None, false, 0).unwrap();
    let mut hello = send(&mut a, &a_ctx, b"", 0);
    let r = b.decrypt(&b_ctx, &mut hello, 0);
    assert_eq!(r, Err(DecryptError::DecryptErr(DecryptErr::AuthRequired)));
}

#[test]
fn password_auth_handshake() {
    let (a_ctx, mut a, mut b_ctx, _b) = pair();
    let mut b = Session::new(a_ctx.public_key(), true, None, false, 0).unwrap();
    b_ctx.add_user_ipv6(b"secret".to_vec(), Some(b"bob".to_vec()), None).unwrap();
    a.set_auth(Some(b"secret".to_vec()), Some(b"bob".to_vec()));
    let mut hello = send(&mut a, &a_ctx, b"", 0);
    assert_eq!(hello.bytes()[4], 2);
    b.decrypt(&b_ctx, &mut hello, 0).unwrap();
    assert_eq!(b.get_state(), State::ReceivedHello);
}

#[test]
fn unknown_user_is_unrecognized() {
    let (a_ctx, mut a, b_ctx, mut b) = pair();
    a.set_auth(Some(b"nobody".to_vec()), Some(b"ghost".to_vec()));
    let mut hello = send(&mut a, &a_ctx, b"", 0);
    let r = b.decrypt(&b_ctx, &mut hello, 0);
    assert_eq!(r, Err(DecryptError::DecryptErr(DecryptErr::UnrecognizedAuth)));
}

#[test]
fn wrong_permanent_key() {
    let (_a_ctx, _a, b_ctx, mut b) = pair();
    let c_ctx = valid_ctx();
    let mut c = Session::new(b_ctx.public_key(), false, None, false, 0).unwrap();
    let mut hello = send(&mut c, &c_ctx, b"", 0);
    let r = b.decrypt(&b_ctx, &mut hello, 0);
    assert_eq!(r, Err(DecryptError::DecryptErr(DecryptErr::WrongPermPubkey)));
}

#[test]
fn key_packet_to_responder_is_stray() {
    let (a_ctx, mut a, b_ctx, mut b) = pair();
    let mut hello = send(&mut a, &a_ctx, b"", 0);
    b.decrypt(&b_ctx, &mut hello, 0).unwrap();
    let key = send(&mut b, &b_ctx, b"", 0);
    // The key packet goes back to its own sender's peer role: a fresh responder.
    let mut c = Session::new(b_ctx.public_key(), false, None, false, 0).unwrap();
    let mut k = deliver(&key);
    let r = c.decrypt(&a_ctx, &mut k, 0);
    assert_eq!(r, Err(DecryptError::DecryptErr(DecryptErr::StrayKey)));
}

#[test]
fn corrupted_handshake_fails_to_decrypt() {
    let (a_ctx, mut a, b_ctx, mut b) = pair();
    let hello = send(&mut a, &a_ctx, b"", 0);
    let mut bytes = hello.bytes().to_vec();
    bytes[100] ^= 1;
    let mut m = Message::from_bytes(64, bytes);
    let r = b.decrypt(&b_ctx, &mut m, 0);
    assert_eq!(r, Err(DecryptError::DecryptErr(DecryptErr::HandshakeDecryptFailed)));
}

#[test]
fn short_packet_is_runt() {
    let (_a_ctx, _a, b_ctx, mut b) = pair();
    let mut m = Message::from_bytes(64, vec![0u8; 16]);
    let r = b.decrypt(&b_ctx, &mut m, 0);
    assert_eq!(r, Err(DecryptError::DecryptErr(DecryptErr::Runt)));
    let mut m = Message::from_bytes(64, vec![0u8; 100]);
    let r = b.decrypt(&b_ctx, &mut m, 0);
    assert_eq!(r, Err(DecryptError::DecryptErr(DecryptErr::Runt)));
}

#[test]
fn misaligned_packet_is_internal_error() {
    let (_a_ctx, _a, b_ctx, mut b) = pair();
    let mut m = Message::from_bytes(63, vec![0u8; 121]);
    assert!(matches!(b.decrypt(&b_ctx, &mut m, 0), Err(DecryptError::Internal(_))));
}

#[test]
fn replayed_traffic_is_rejected() {
    let (a_ctx, mut a, b_ctx, mut b) = established_pair();
    let t = send(&mut a, &a_ctx, b"once", 0);
    let mut first = deliver(&t);
    let mut again = deliver(&t);
    b.decrypt(&b_ctx, &mut first, 0).unwrap();
    let r = b.decrypt(&b_ctx, &mut again, 0);
    assert_eq!(r, Err(DecryptError::DecryptErr(DecryptErr::Replay)));
    assert_eq!(b.stats().duplicate_packets, 1);
}

#[test]
fn corrupted_traffic_fails_to_decrypt() {
    let (a_ctx, mut a, b_ctx, mut b) = established_pair();
    let t = send(&mut a, &a_ctx, b"once", 0);
    let mut bytes = t.bytes().to_vec();
    bytes[10] ^= 0x80;
    let mut m = Message::from_bytes(64, bytes);
    let r = b.decrypt(&b_ctx, &mut m, 0);
    assert_eq!(r, Err(DecryptError::DecryptErr(DecryptErr::Decrypt)));
}

#[test]
fn key_packet_to_established_session() {
    let (_a_ctx, _a, b_ctx, mut b) = established_pair();
    let mut packet = vec![0u8, 0, 0, 2];
    packet.extend_from_slice(&[0u8; 120]);
    let mut m = Message::from_bytes(64, packet);
    let r = b.decrypt(&b_ctx, &mut m, 0);
    assert_eq!(r, Err(DecryptError::DecryptErr(DecryptErr::KeyPktEstablishedSession)));
}

#[test]
fn traffic_nonces_increase() {
    let (a_ctx, mut a, _b_ctx, _b) = established_pair();
    let mut last = 0u32;
    for i in 0..10 {
        let t = send(&mut a, &a_ctx, b"data", 0);
        let n = prefix(&t);
        if i > 0 {
            assert!(n > last);
        }
        last = n;
    }
}

#[test]
fn setup_timeout_resets_before_sending() {
    let (a_ctx, mut a, b_ctx, mut b) = pair_at(100);
    let mut hello = send(&mut a, &a_ctx, b"", 100);
    b.decrypt(&b_ctx, &mut hello, 100).unwrap();
    assert_eq!(b.get_state(), State::ReceivedHello);
    // Ten seconds later with no traffic, B starts over and sends a hello of its own.
    let out = send(&mut b, &b_ctx, b"", 110);
    assert_eq!(prefix(&out), 0);
    assert_eq!(b.get_state(), State::SentHello);
    assert_eq!(b.session_mut.time_of_last_packet, 110);
}

#[test]
fn no_timeout_before_ten_seconds() {
    let (a_ctx, mut a, b_ctx, mut b) = pair_at(100);
    let mut hello = send(&mut a, &a_ctx, b"", 100);
    b.decrypt(&b_ctx, &mut hello, 100).unwrap();
    let out = send(&mut b, &b_ctx, b"", 109);
    assert_eq!(prefix(&out), 2);
    assert_eq!(b.get_state(), State::SentKey);
}

#[test]
fn established_session_survives_short_silence() {
    let (a_ctx, mut a, _b_ctx, _b) = established_pair();
    let t = send(&mut a, &a_ctx, b"data", 30);
    assert!(prefix(&t) >= 5);
    assert_eq!(a.get_state(), State::Established);
    let t = send(&mut a, &a_ctx, b"data", 200);
    assert_eq!(prefix(&t), 0);
    assert_eq!(a.get_state(), State::SentHello);
}

#[test]
fn nonce_near_wrap_restarts_handshake() {
    let (a_ctx, mut a, _b_ctx, _b) = established_pair();
    a.session_mut.next_nonce = u32::MAX - 10;
    let out = send(&mut a, &a_ctx, b"data", 0);
    assert_eq!(prefix(&out), 0);
    assert_eq!(out.len(), 124);
    assert_eq!(a.get_state(), State::SentHello);
}

#[test]
fn reset_clears_session() {
    let (_a_ctx, mut a, _b_ctx, _b) = established_pair();
    a.reset();
    assert_eq!(a.get_state(), State::Init);
    assert_eq!(a.session_mut.next_nonce, 0);
    assert!(!a.session_mut.established);
    assert!(!a.session_mut.is_initiator);
    assert_eq!(a.session_mut.our_temp_priv_key, [0u8; 32]);
    assert_eq!(a.session_mut.our_temp_pub_key, [0u8; 32]);
    assert_eq!(a.session_mut.her_temp_pub_key, [0u8; 32]);
    assert_eq!(a.session_mut.shared_secret, [0u8; 32]);
    assert!(a.her_key_known());
}

#[test]
fn empty_traffic_packet_is_refused() {
    let (a_ctx, mut a, _b_ctx, _b) = established_pair();
    let mut m = outgoing(b"");
    assert!(a.encrypt(&a_ctx, &mut m, 0).is_err());
}

#[test]
fn new_session_checks_key() {
    sodiumoxide::init().unwrap();
    assert_eq!(Session::new([0u8; 32], false, None, false, 0).err(), Some(crypto_auth::keys::KeyError::ZeroPublicKey));
    let ctx = valid_ctx();
    assert_eq!(
        Session::new(ctx.public_key(), false, None, true, 0).err(),
        Some(crypto_auth::keys::KeyError::UnsupportedProtocol)
    );
    let mut bad = [1u8; 32];
    while ip6_for_key(&bad).is_ok() {
        bad[0] += 1;
    }
    assert_eq!(Session::new(bad, false, None, false, 0).err(), Some(crypto_auth::keys::KeyError::BadPublicKey));
    let s = Session::new(ctx.public_key(), false, Some("peer".to_string()), false, 5).unwrap();
    assert_eq!(s.get_name(), Some("peer".to_string()));
    assert_eq!(s.get_her_pubkey(), ctx.public_key());
    assert_eq!(s.get_her_ip6()[0], 0xfc);
    assert_eq!(s.get_state(), State::Init);
}

#[test]
fn decrypt_err_codes() {
    assert_eq!(DecryptErr::NoError.code(), 0);
    assert_eq!(DecryptErr::Runt.code(), 1);
    assert_eq!(DecryptErr::KeyPktEstablishedSession.code(), 5);
    assert_eq!(DecryptErr::InvalidPacket.code(), 13);
    assert_eq!(DecryptErr::Decrypt.code(), 15);
}

#[test]
fn ephemeral_key_known_exactly_from_received_hello() {
    let (a_ctx, mut a, b_ctx, mut b) = pair();
    let check = |s: &Session| {
        let zero = s.session_mut.her_temp_pub_key == [0u8; 32];
        assert_eq!(s.session_mut.next_nonce < 2, zero);
    };
    check(&a);
    check(&b);
    let mut hello = send(&mut a, &a_ctx, b"", 0);
    check(&a);
    b.decrypt(&b_ctx, &mut hello, 0).unwrap();
    check(&b);
    let mut key = send(&mut b, &b_ctx, b"", 0);
    check(&b);
    a.decrypt(&a_ctx, &mut key, 0).unwrap();
    check(&a);
    let mut t = send(&mut a, &a_ctx, b"data", 0);
    check(&a);
    b.decrypt(&b_ctx, &mut t, 0).unwrap();
    check(&b);
    a.reset();
    check(&a);
}

#[test]
fn address_is_double_sha512_of_key() {
    let ctx = valid_ctx();
    let ip = ip6_for_key(&ctx.public_key()).unwrap();
    let h = sha512::hash(&sha512::hash(&ctx.public_key()).0).0;
    assert_eq!(ip[..], h[..16]);
    assert_eq!(ip[0], 0xfc);
    let s = Session::new(ctx.public_key(), false, None, false, 0).unwrap();
    assert_eq!(s.get_her_ip6(), ip);
}

#[test]
fn hello_layout_with_given_random_bytes() {
    let (a_ctx, mut a, b_ctx, _b) = pair();
    let mut hs = [0u8; 24];
    for (i, r) in hs.iter_mut().enumerate() {
        *r = i as u8 + 100;
    }
    let tpriv = [77u8; 32];
    let mut m = outgoing(b"abcd");
    a.encrypt_with(&a_ctx, &mut m, 0, &hs, &tpriv).unwrap();
    let b = m.bytes().to_vec();
    assert_eq!(b.len(), 124);
    assert_eq!(b[0..4], [0, 0, 0, 0]);
    // Without credentials the challenge is the type followed by zeros.
    assert_eq!(b[4..16], [0u8; 12]);
    assert_eq!(b[16..40], hs);
    assert_eq!(b[40..72], a_ctx.public_key());
    let temp_pub = sodiumoxide::crypto::scalarmult::curve25519::scalarmult_base(
        &sodiumoxide::crypto::scalarmult::curve25519::Scalar(tpriv),
    )
    .0;
    assert_eq!(a.session_mut.our_temp_pub_key, temp_pub);
    assert_eq!(a.session_mut.our_temp_priv_key, tpriv);
    assert!(a.session_mut.is_initiator);
    let secret = get_shared_secret(b_ctx.private_key(), a_ctx.public_key(), None);
    let mut hs_nonce = [0u8; 24];
    hs_nonce.copy_from_slice(&b[16..40]);
    let mut sealed = Message::from_bytes(0, b[72..].to_vec());
    crypto_auth::crypto::decrypt_rnd_nonce(hs_nonce, &mut sealed, secret).unwrap();
    assert_eq!(sealed.bytes()[..32], temp_pub);
    assert_eq!(&sealed.bytes()[32..], b"abcd");
    // A repeat hello keeps the ephemeral key and says so in its nonce.
    let mut m = outgoing(b"");
    a.encrypt_with(&a_ctx, &mut m, 0, &hs, &[1u8; 32]).unwrap();
    assert_eq!(prefix(&m), 1);
    assert_eq!(a.session_mut.our_temp_priv_key, tpriv);
}

#[test]
fn encrypt_refuses_bad_buffers() {
    let (a_ctx, mut a, _b_ctx, _b) = pair();
    let mut m = Message::new(511);
    m.push_bytes(b"abcd").unwrap();
    assert!(a.encrypt(&a_ctx, &mut m, 0).is_err());
    assert_eq!(a.get_state(), State::Init);
    let mut m = Message::new(100);
    assert!(a.encrypt(&a_ctx, &mut m, 0).is_err());
    assert_eq!(m.len(), 0);
    assert_eq!(a.get_state(), State::Init);
}

#[test]
fn set_auth_changes_reset_the_session() {
    let (a_ctx, mut a, _b_ctx, _b) = pair();
    let _ = send(&mut a, &a_ctx, b"", 0);
    assert_eq!(a.get_state(), State::SentHello);
    a.set_auth(Some(b"pw".to_vec()), None);
    assert_eq!(a.get_state(), State::Init);
    assert_eq!(a.session_mut.auth_type, AuthType::One);
    let _ = send(&mut a, &a_ctx, b"", 0);
    // The same password again changes nothing.
    a.set_auth(Some(b"pw".to_vec()), None);
    assert_eq!(a.get_state(), State::SentHello);
    a.set_auth(Some(b"pw2".to_vec()), Some(b"me".to_vec()));
    assert_eq!(a.session_mut.auth_type, AuthType::Two);
    assert_eq!(a.session_mut.login, Some(b"me".to_vec()));
    let hello = send(&mut a, &a_ctx, b"", 0);
    assert_eq!(hello.bytes()[4], 2);
    a.set_auth(None, None);
    assert_eq!(a.session_mut.auth_type, AuthType::Zero);
    assert_eq!(a.session_mut.password, None);
    // Type without credentials: the challenge is the type byte and zeros.
    a.set_auth(Some(b"pw3".to_vec()), None);
    a.session_mut.login = None;
    let hello = send(&mut a, &a_ctx, b"", 0);
    assert_eq!(hello.bytes()[4], 1);
    assert_eq!(hello.bytes()[5..16], [0u8; 11]);
}
