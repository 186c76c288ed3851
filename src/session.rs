//! A session with one peer: the handshake state machine, nonce sequencing, and the
//! timeout and reset policy.
use vstd::prelude::*;

use crate::auth::CryptoAuth;
use crate::bytes::{
    all_zero, be32, be32_value, bytes_eq, concat, greater, is_zero, read_be32, slice_to_vec,
    take_array,
};
use crate::crypto::{
    decrypt, decrypt_rnd_nonce, encrypt, encrypt_rnd_nonce, get_shared_secret, hash_password,
};
use crate::header::{
    AuthType, Challenge, AUTH_OFFSET, HANDSHAKE_NONCE_OFFSET, HEADER_SIZE, PUBLIC_KEY_OFFSET,
    SEALED_OFFSET,
};
use crate::keys::{ip6_for_key, ip6_valid, KeyError};
use crate::message::Message;
use crate::model::{
    decrypt_relation, encrypt_relation, handshake_effect, handshake_outcome, handshake_step,
    lemma_zero32,
    replay_cleared, traffic_plain, zero32, SessionView,
};
use crate::nacl::{random_bytes, scalarmult_base};
use crate::replay::{checked, ReplayProtector};

verus! {
/// Seconds of inactivity after which an established session is reset.
pub const DEFAULT_RESET_AFTER_INACTIVITY_SECONDS: u32 = 60;

/// Seconds of inactivity after which a session still in its handshake is reset.
pub const DEFAULT_SETUP_RESET_AFTER_INACTIVITY_SECONDS: u32 = 10;

/// From this packet counter on, the session starts over before it could wrap.
pub const MAX_NONCE: u32 = 0xffff_fff0;

/// The phase of a session, as `next_nonce` and `established` give it.
#[derive(Debug, Clone, Copy, PartialEq, Eq, Structural)]
pub enum State {
    Init,
    SentHello,
    ReceivedHello,
    SentKey,
    ReceivedKey,
    Established,
}

/// Why an incoming packet was dropped.
#[derive(Debug, Clone, Copy, PartialEq, Eq, Structural)]
pub enum DecryptErr {
    /// No error.
    NoError,
    /// The packet is too short.
    Runt,
    /// A traffic packet reached a session whose handshake has not got that far.
    NoSession,
    FinalShakeFail,
    FailedDecryptionRunMsg,
    /// A key packet reached an established session.
    KeyPktEstablishedSession,
    /// The handshake carries another permanent key than this session's peer.
    WrongPermPubkey,
    /// The user may only connect from another key.
    IpRestricted,
    /// Authentication is required and none was recognised.
    AuthRequired,
    /// The handshake names a user that is not registered.
    UnrecognizedAuth,
    /// A key packet that this session is not waiting for.
    StrayKey,
    HandshakeDecryptFailed,
    /// The ephemeral key is all zero.
    Wiseguy,
    /// A duplicate hello or key packet, or a repeat key packet with another key.
    InvalidPacket,
    /// The packet counter was seen already or is below the window.
    Replay,
    /// Authenticated decryption failed.
    Decrypt,
}

impl DecryptErr {
    /// The stable number of this error.
    pub open spec fn spec_code(self) -> u32 {
        match self {
            DecryptErr::NoError => 0,
            DecryptErr::Runt => 1,
            DecryptErr::NoSession => 2,
            DecryptErr::FinalShakeFail => 3,
            DecryptErr::FailedDecryptionRunMsg => 4,
            DecryptErr::KeyPktEstablishedSession => 5,
            DecryptErr::WrongPermPubkey => 6,
            DecryptErr::IpRestricted => 7,
            DecryptErr::AuthRequired => 8,
            DecryptErr::UnrecognizedAuth => 9,
            DecryptErr::StrayKey => 10,
            DecryptErr::HandshakeDecryptFailed => 11,
            DecryptErr::Wiseguy => 12,
            DecryptErr::InvalidPacket => 13,
            DecryptErr::Replay => 14,
            DecryptErr::Decrypt => 15,
        }
    }

    /// The stable number of this error.
    pub fn code(&self) -> (r: u32)
        ensures
            r == self.spec_code(),
    {
        match self {
            DecryptErr::NoError => 0,
            DecryptErr::Runt => 1,
            DecryptErr::NoSession => 2,
            DecryptErr::FinalShakeFail => 3,
            DecryptErr::FailedDecryptionRunMsg => 4,
            DecryptErr::KeyPktEstablishedSession => 5,
            DecryptErr::WrongPermPubkey => 6,
            DecryptErr::IpRestricted => 7,
            DecryptErr::AuthRequired => 8,
            DecryptErr::UnrecognizedAuth => 9,
            DecryptErr::StrayKey => 10,
            DecryptErr::HandshakeDecryptFailed => 11,
            DecryptErr::Wiseguy => 12,
            DecryptErr::InvalidPacket => 13,
            DecryptErr::Replay => 14,
            DecryptErr::Decrypt => 15,
        }
    }
}

#[derive(Debug, Clone, Copy, PartialEq, Eq)]
pub enum DecryptError {
    DecryptErr(DecryptErr),
    /// A fault of the caller (alignment, headroom) or of this library.
    Internal(&'static str),
}

#[derive(Debug, Clone, Copy, PartialEq, Eq)]
pub enum EncryptError {
    /// A fault of the caller (alignment, headroom, an empty packet).
    Internal(&'static str),
}

/// Packet counters of a session.
#[derive(Debug, Clone, Copy, PartialEq, Eq, Structural)]
pub struct CryptoStats {
    pub lost_packets: u64,
    pub received_unexpected: u64,
    pub received_packets: u64,
    pub duplicate_packets: u64,
}

/// The mutable state of a session.
pub struct SessionMut {
    pub her_public_key: [u8; 32],
    pub display_name: Option<String>,
    /// The peer's address; a packet whose key does not hash to it is dropped.
    pub her_ip6: [u8; 16],
    pub reset_after_inactivity_seconds: u32,
    pub setup_reset_after_inactivity_seconds: u32,
    pub shared_secret: [u8; 32],
    pub her_temp_pub_key: [u8; 32],
    pub our_temp_priv_key: [u8; 32],
    pub our_temp_pub_key: [u8; 32],
    /// The password to authenticate with to the peer.
    pub password: Option<Vec<u8>>,
    /// The login to authenticate with to the peer.
    pub login: Option<Vec<u8>>,
    /// The next packet counter; below 5 it also tells the handshake phase.
    pub next_nonce: u32,
    pub time_of_last_packet: u32,
    pub auth_type: AuthType,
    /// This node sent the first hello.
    pub is_initiator: bool,
    /// A hello without a recognised user is refused.
    pub require_auth: bool,
    pub established: bool,
}

pub open spec fn opt_bytes(o: Option<Vec<u8>>) -> Option<Seq<u8>> {
    match o {
        Some(v) => Some(v@),
        None => None,
    }
}

impl View for SessionMut {
    type V = SessionView;

    open spec fn view(&self) -> SessionView {
        SessionView {
            her_public_key: self.her_public_key@,
            her_ip6: self.her_ip6@,
            display_name: match self.display_name {
                Some(s) => Some(s@),
                None => None,
            },
            reset_after_inactivity_seconds: self.reset_after_inactivity_seconds,
            setup_reset_after_inactivity_seconds: self.setup_reset_after_inactivity_seconds,
            shared_secret: self.shared_secret@,
            her_temp_pub_key: self.her_temp_pub_key@,
            our_temp_priv_key: self.our_temp_priv_key@,
            our_temp_pub_key: self.our_temp_pub_key@,
            password: opt_bytes(self.password),
            login: opt_bytes(self.login),
            next_nonce: self.next_nonce,
            time_of_last_packet: self.time_of_last_packet,
            auth_type: self.auth_type,
            is_initiator: self.is_initiator,
            require_auth: self.require_auth,
            established: self.established,
        }
    }
}

impl SessionMut {
    /// Starts the session over. The replay window is left to the caller.
    pub fn reset(&mut self)
        ensures
            final(self)@ == old(self)@.reset(),
    {
        self.next_nonce = 0;
        self.is_initiator = false;
        self.our_temp_priv_key = [0u8; 32];
        self.our_temp_pub_key = [0u8; 32];
        self.her_temp_pub_key = [0u8; 32];
        self.shared_secret = [0u8; 32];
        self.established = false;
        assert(self@ =~= old(self)@.reset());
    }

    /// Resets the session when nothing came in for too long (see `timed_out`).
    pub fn reset_if_timeout(&mut self, now: u32)
        ensures
            final(self)@ == old(self)@.after_timeout(now),
    {
        if self.next_nonce == 1 {
            return;
        }
        let delta: i64 = now as i64 - self.time_of_last_packet as i64;
        if delta < self.setup_reset_after_inactivity_seconds as i64 {
            return;
        } else if delta < self.reset_after_inactivity_seconds as i64 {
            if self.established {
                return;
            }
        }
        self.time_of_last_packet = now;
        self.reset();
        assert(self@ =~= old(self)@.after_timeout(now));
    }

    pub fn get_state(&self) -> (r: State)
        ensures
            r == self@.state(),
    {
        if self.next_nonce == 0 {
            State::Init
        } else if self.next_nonce == 1 {
            State::SentHello
        } else if self.next_nonce == 2 {
            State::ReceivedHello
        } else if self.next_nonce == 3 {
            State::SentKey
        } else if self.next_nonce > 4 && self.established {
            State::Established
        } else {
            State::ReceivedKey
        }
    }

    /// Sets the credentials to offer the peer (see `SessionView::with_auth`).
    pub fn set_auth(&mut self, password: Option<Vec<u8>>, login: Option<Vec<u8>>)
        requires
            old(self)@.wf(),
        ensures
            final(self)@.wf(),
            final(self)@ == old(self)@.with_auth(opt_bytes(password), opt_bytes(login)),
    {
        let same = match (&self.password, &password) {
            (Some(a), Some(b)) => crate::bytes::bytes_eq(a.as_slice(), b.as_slice()),
            _ => false,
        };
        if password.is_none() && (self.password.is_some() || self.auth_type != AuthType::Zero) {
            self.password = None;
            self.auth_type = AuthType::Zero;
        } else if self.password.is_none() || !same {
            self.password = password;
            self.auth_type = AuthType::One;
            if login.is_some() {
                self.auth_type = AuthType::Two;
                self.login = login;
            }
        } else {
            return;
        }
        self.reset();
        proof { lemma_zero32(); }
    }

    pub fn her_key_known(&self) -> (r: bool)
        ensures
            r == !all_zero(self.her_public_key@),
    {
        !is_zero(self.her_public_key.as_slice())
    }
}

/// A session with one peer.
pub struct Session {
    pub session_mut: SessionMut,
    /// Checked on every traffic packet; handshakes and resets clear it.
    pub replay_protector: ReplayProtector,
}

impl Session {
    pub open spec fn wf(&self) -> bool {
        self.session_mut@.wf()
    }

    /// A session with the peer whose permanent key is `her_pub_key`, created at `now`.
    /// The key must be non-zero and hash to a valid address. The Noise protocol is not
    /// supported.
    pub fn new(
        her_pub_key: [u8; 32],
        require_auth: bool,
        display_name: Option<String>,
        use_noise: bool,
        now: u32,
    ) -> (r: Result<Session, KeyError>)
        ensures
            use_noise ==> r == Err::<Session, _>(KeyError::UnsupportedProtocol),
            !use_noise && all_zero(her_pub_key@) ==> r == Err::<Session, _>(
                KeyError::ZeroPublicKey,
            ),
            !use_noise && !all_zero(her_pub_key@) && !ip6_valid(her_pub_key@) ==> r == Err::<
                Session,
                _,
            >(KeyError::BadPublicKey),
            !use_noise && !all_zero(her_pub_key@) && ip6_valid(her_pub_key@) ==> r is Ok,
            r is Ok ==> ({
                let s = r->Ok_0.session_mut@;
                &&& r->Ok_0.wf()
                &&& s.her_public_key == her_pub_key@
                &&& s.display_name == match display_name {
                    Some(n) => Some(n@),
                    None => None::<Seq<char>>,
                }
                &&& s.next_nonce == 0
                &&& s.time_of_last_packet == now
                &&& s.require_auth == require_auth
                &&& !s.is_initiator && !s.established
                &&& s.password is None && s.login is None && s.auth_type == AuthType::Zero
                &&& s.reset_after_inactivity_seconds == DEFAULT_RESET_AFTER_INACTIVITY_SECONDS
                &&& s.setup_reset_after_inactivity_seconds
                    == DEFAULT_SETUP_RESET_AFTER_INACTIVITY_SECONDS
                &&& all_zero(s.shared_secret) && all_zero(s.our_temp_priv_key) && all_zero(
                    s.our_temp_pub_key,
                )
                &&& forall|n: u32| r->Ok_0.replay_protector.accepts(n)
            }),
    {
        if use_noise {
            return Err(KeyError::UnsupportedProtocol);
        }
        let her_ip6 = match ip6_for_key(&her_pub_key) {
            Ok(ip) => ip,
            Err(e) => return Err(e),
        };
        let sm = SessionMut {
            her_public_key: her_pub_key,
            display_name,
            her_ip6,
            reset_after_inactivity_seconds: DEFAULT_RESET_AFTER_INACTIVITY_SECONDS,
            setup_reset_after_inactivity_seconds: DEFAULT_SETUP_RESET_AFTER_INACTIVITY_SECONDS,
            shared_secret: [0u8; 32],
            her_temp_pub_key: [0u8; 32],
            our_temp_priv_key: [0u8; 32],
            our_temp_pub_key: [0u8; 32],
            password: None,
            login: None,
            next_nonce: 0,
            time_of_last_packet: now,
            auth_type: AuthType::Zero,
            is_initiator: false,
            require_auth,
            established: false,
        };
        proof {
            assert(sm.her_temp_pub_key@ =~= zero32());
            lemma_zero32();
        }
        Ok(Session { session_mut: sm, replay_protector: ReplayProtector::new() })
    }

    /// Seals `msg` for the peer, with the random bytes given: a handshake packet while the
    /// handshake is under way (see `encrypt_relation`), a traffic packet after.
    pub fn encrypt_with(
        &mut self,
        ctx: &CryptoAuth,
        msg: &mut Message,
        now: u32,
        hs_nonce: &[u8; 24],
        tpriv: &[u8; 32],
    ) -> (r: Result<(), EncryptError>)
        requires
            old(self).wf(),
            old(msg).wf(),
        ensures
            final(self).wf(),
            final(msg).wf(),
            final(self).replay_protector == old(self).replay_protector,
            encrypt_relation(
                old(self).session_mut@,
                ctx.spec_private_key(),
                ctx.spec_public_key(),
                *old(msg),
                now,
                hs_nonce@,
                tpriv@,
                r is Ok,
                final(self).session_mut@,
                *final(msg),
            ),
    {
        let sm = &mut self.session_mut;
        sm.reset_if_timeout(now);
        if sm.next_nonce >= MAX_NONCE {
            sm.reset();
        }
        proof { lemma_zero32(); }
        if !msg.is_aligned_to(4) {
            return Err(EncryptError::Internal("Alignment fault"));
        }
        if sm.next_nonce < 4 {
            return sm.encrypt_handshake(ctx, msg, hs_nonce, tpriv);
        }
        if sm.next_nonce == 4 {
            sm.shared_secret = get_shared_secret(sm.our_temp_priv_key, sm.her_temp_pub_key, None);
        }
        if msg.len() == 0 {
            return Err(EncryptError::Internal("Empty packet during handshake"));
        }
        if msg.pad() < 36 {
            return Err(EncryptError::Internal("Not enough padding"));
        }
        let ghost payload = msg.bytes@;
        encrypt(sm.next_nonce, msg, sm.shared_secret, sm.is_initiator);
        let prefix = be32(sm.next_nonce);
        let _ = msg.push_bytes(prefix.as_slice());
        sm.next_nonce = sm.next_nonce + 1;
        Ok(())
    }

    /// Sets the credentials to offer the peer (see `SessionMut::set_auth`).
    pub fn set_auth(&mut self, password: Option<Vec<u8>>, login: Option<Vec<u8>>)
        requires
            old(self).wf(),
        ensures
            final(self).wf(),
            final(self).replay_protector == old(self).replay_protector,
            final(self).session_mut@ == old(self).session_mut@.with_auth(
                opt_bytes(password),
                opt_bytes(login),
            ),
    {
        self.session_mut.set_auth(password, login)
    }

    pub fn get_state(&self) -> (r: State)
        ensures
            r == self.session_mut@.state(),
    {
        self.session_mut.get_state()
    }

    pub fn get_her_pubkey(&self) -> (r: [u8; 32])
        ensures
            r@ == self.session_mut@.her_public_key,
    {
        self.session_mut.her_public_key
    }

    pub fn get_her_ip6(&self) -> (r: [u8; 16])
        ensures
            r@ == self.session_mut@.her_ip6,
    {
        self.session_mut.her_ip6
    }

    pub fn get_name(&self) -> (r: Option<String>)
        ensures
            match r {
                Some(n) => self.session_mut@.display_name == Some(n@),
                None => self.session_mut@.display_name is None,
            },
    {
        match &self.session_mut.display_name {
            Some(n) => Some(n.clone()),
            None => None,
        }
    }

    /// The replay protector's counters.
    pub fn stats(&self) -> (r: CryptoStats)
        ensures
            r.lost_packets == self.replay_protector.lost_packets,
            r.received_unexpected == self.replay_protector.received_unexpected,
            r.received_packets == self.replay_protector.received_packets,
            r.duplicate_packets == self.replay_protector.duplicate_packets,
    {
        let st = self.replay_protector.get_stats();
        CryptoStats {
            lost_packets: st.lost_packets as u64,
            received_unexpected: st.received_unexpected as u64,
            received_packets: st.received_packets as u64,
            duplicate_packets: st.duplicate_packets as u64,
        }
    }

    /// Resets the session when nothing came in for too long before `now`.
    pub fn reset_if_timeout(&mut self, now: u32)
        requires
            old(self).wf(),
        ensures
            final(self).wf(),
            final(self).session_mut@ == old(self).session_mut@.after_timeout(now),
            final(self).replay_protector == old(self).replay_protector,
    {
        self.session_mut.reset_if_timeout(now);
        proof { lemma_zero32(); }
    }

    /// Starts the session over, replay window included.
    pub fn reset(&mut self)
        requires
            old(self).wf(),
        ensures
            final(self).wf(),
            final(self).session_mut@ == old(self).session_mut@.reset(),
            replay_cleared(old(self).replay_protector, final(self).replay_protector),
    {
        self.replay_protector.reset();
        self.session_mut.reset();
        proof { lemma_zero32(); }
    }

    pub fn her_key_known(&self) -> (r: bool)
        ensures
            r == !all_zero(self.session_mut@.her_public_key),
    {
        self.session_mut.her_key_known()
    }

    /// Seals `msg` for the peer at time `now`, drawing the handshake's random bytes
    /// from the CSPRNG.
    pub fn encrypt(&mut self, ctx: &CryptoAuth, msg: &mut Message, now: u32) -> (r: Result<
        (),
        EncryptError,
    >)
        requires
            old(self).wf(),
            old(msg).wf(),
        ensures
            final(self).wf(),
            final(msg).wf(),
            final(self).replay_protector == old(self).replay_protector,
            exists|hs_nonce: Seq<u8>, tpriv: Seq<u8>|
                hs_nonce.len() == 24 && tpriv.len() == 32 && #[trigger] encrypt_relation(
                    old(self).session_mut@,
                    ctx.spec_private_key(),
                    ctx.spec_public_key(),
                    *old(msg),
                    now,
                    hs_nonce,
                    tpriv,
                    r is Ok,
                    final(self).session_mut@,
                    *final(msg),
                ),
    {
        let nonce_v = random_bytes(24);
        let tpriv_v = random_bytes(32);
        let hs_nonce: [u8; 24] = take_array(nonce_v.as_slice(), 0);
        let tpriv: [u8; 32] = take_array(tpriv_v.as_slice(), 0);
        self.encrypt_with(ctx, msg, now, &hs_nonce, &tpriv)
    }

    /// Opens a packet from the peer at time `now`: a handshake packet moves the handshake
    /// on, a traffic packet is checked against replays and left as its payload (see
    /// `decrypt_relation`).
    pub fn decrypt(&mut self, ctx: &CryptoAuth, msg: &mut Message, now: u32) -> (r: Result<
        (),
        DecryptError,
    >)
        requires
            old(self).wf(),
            old(msg).wf(),
        ensures
            final(self).wf(),
            final(msg).wf(),
            decrypt_relation(
                old(self).session_mut@,
                old(self).replay_protector,
                ctx.users(),
                ctx.spec_private_key(),
                ctx.spec_public_key(),
                *old(msg),
                now,
                r,
                final(self).session_mut@,
                final(self).replay_protector,
                *final(msg),
            ),
    {
        if msg.len() < 20 {
            return Err(DecryptError::DecryptErr(DecryptErr::Runt));
        }
        if msg.pad() < 12 {
            return Err(DecryptError::Internal("Need at least 12 bytes of padding in incoming message"));
        }
        if !msg.is_aligned_to(4) {
            return Err(DecryptError::Internal("Alignment fault"));
        }
        if msg.cap() % 4 != 0 {
            return Err(DecryptError::Internal("Length fault"));
        }
        let nonce = read_be32(msg.bytes());
        let sm = &mut self.session_mut;
        let rp = &mut self.replay_protector;
        if nonce >= 4 && !sm.established {
            if sm.next_nonce < 3 {
                return Err(DecryptError::DecryptErr(DecryptErr::NoSession));
            }
            if sm.next_nonce > u32::MAX - 3 {
                return Err(DecryptError::Internal("nonce sequence error"));
            }
            let secret = get_shared_secret(sm.our_temp_priv_key, sm.her_temp_pub_key, None);
            let ret = sm.decrypt_message(rp, nonce, msg, secret);
            // Starting the window above this counter, whatever comes of it, spares a few
            // needless drops at the start of the session.
            rp.init(nonce.wrapping_add(1));
            if ret.is_ok() {
                sm.shared_secret = secret;
                sm.established = true;
                sm.next_nonce = sm.next_nonce + 3;
                sm.time_of_last_packet = now;
            }
            ret
        } else if nonce >= 4 {
            let ret = sm.decrypt_message(rp, nonce, msg, sm.shared_secret);
            if ret.is_ok() {
                sm.time_of_last_packet = now;
            }
            ret
        } else if sm.established && nonce >= 2 {
            Err(DecryptError::DecryptErr(DecryptErr::KeyPktEstablishedSession))
        } else {
            sm.decrypt_handshake(rp, ctx, msg)
        }
    }
}

impl SessionMut {
    /// Writes a hello or key packet in front of the payload.
    fn encrypt_handshake(
        &mut self,
        ctx: &CryptoAuth,
        msg: &mut Message,
        hs_nonce: &[u8; 24],
        tpriv: &[u8; 32],
    ) -> (r: Result<(), EncryptError>)
        requires
            old(self)@.wf(),
            old(self)@.next_nonce < 4,
            old(msg).wf(),
        ensures
            final(self)@.wf(),
            final(msg).wf(),
            old(msg).pad < HEADER_SIZE ==> r is Err && final(self)@ == old(self)@
                && *final(msg) == *old(msg),
            old(msg).pad >= HEADER_SIZE ==> {
                &&& r is Ok
                &&& final(self)@ == old(self)@.after_handshake_sent(tpriv@)
                &&& final(msg).bytes@ == old(self)@.handshake_packet(
                    ctx.spec_private_key(),
                    ctx.spec_public_key(),
                    old(msg).bytes@,
                    hs_nonce@,
                    tpriv@,
                )
                &&& final(msg).bytes@.len() == old(msg).bytes@.len() + HEADER_SIZE
                &&& final(msg).pad == old(msg).pad - HEADER_SIZE
            },
    {
        if msg.pad() < HEADER_SIZE {
            return Err(EncryptError::Internal("push CryptoHeader failed"));
        }
        let ghost s0 = self@;
        // The challenge: hashed credentials, or the type alone followed by zeros.
        let mut auth: [u8; 12] = [0u8; 12];
        let mut password_hash: Option<[u8; 32]> = None;
        match (&self.login, &self.password) {
            (Some(login), Some(password)) => {
                let (pwd_hash, challenge) = hash_password(
                    login.as_slice(),
                    password.as_slice(),
                    self.auth_type,
                );
                auth = challenge.to_bytes();
                password_hash = Some(pwd_hash);
            },
            _ => {
                auth[0] = self.auth_type.code();
            },
        }
        let nonce = self.next_nonce;
        if nonce == 0 || nonce == 2 {
            self.our_temp_priv_key = *tpriv;
            self.our_temp_pub_key = scalarmult_base(tpriv);
        }
        let shared_secret = if nonce < 2 {
            self.is_initiator = true;
            self.next_nonce = 1;
            get_shared_secret(ctx.private_key(), self.her_public_key, password_hash)
        } else {
            self.next_nonce = 3;
            get_shared_secret(ctx.private_key(), self.her_temp_pub_key, password_hash)
        };
        assert(self@ =~= s0.after_handshake_sent(tpriv@));
        // Seal the ephemeral key and the payload, then put the clear part of the header
        // in front.
        let inner = concat(self.our_temp_pub_key.as_slice(), msg.bytes());
        let mut sealed = Message::from_bytes(16, inner);
        encrypt_rnd_nonce(*hs_nonce, &mut sealed, shared_secret);
        let prefix = be32(nonce);
        let head1 = concat(prefix.as_slice(), auth.as_slice());
        let head2 = concat(head1.as_slice(), hs_nonce.as_slice());
        let my_pub = ctx.public_key();
        let head3 = concat(head2.as_slice(), my_pub.as_slice());
        let packet = concat(head3.as_slice(), sealed.bytes());
        proof {
            assert(auth@ =~= s0.offered_challenge());
            assert(packet@ =~= s0.handshake_packet(
                ctx.spec_private_key(),
                ctx.spec_public_key(),
                old(msg).bytes@,
                hs_nonce@,
                tpriv@,
            ));
        }
        msg.replace(packet);
        Ok(())
    }

    /// Opens a traffic packet with `secret` and checks its counter against replays.
    fn decrypt_message(
        &self,
        rp: &mut ReplayProtector,
        nonce: u32,
        msg: &mut Message,
        secret: [u8; 32],
    ) -> (r: Result<(), DecryptError>)
        requires
            old(msg).wf(),
            old(msg).bytes@.len() >= 20,
            nonce == be32_value(old(msg).bytes@),
        ensures
            final(msg).wf(),
            ({
                let plain = traffic_plain(old(msg).bytes@, secret@, self.is_initiator);
                let same_msg = final(msg).bytes@ == old(msg).bytes@ && final(msg).pad
                    == old(msg).pad;
                if plain is None {
                    r == Err::<(), _>(DecryptError::DecryptErr(DecryptErr::Decrypt)) && same_msg
                        && *final(rp) == *old(rp)
                } else {
                    &&& checked(*old(rp), *final(rp), nonce, r is Ok)
                    &&& if !old(rp).accepts(nonce) {
                        r == Err::<(), _>(DecryptError::DecryptErr(DecryptErr::Replay))
                            && same_msg
                    } else {
                        r is Ok && final(msg).bytes@ == plain->0 && final(msg).bytes@.len() + 20
                            == old(msg).bytes@.len()
                    }
                }
            }),
    {
        let len = msg.len();
        let cipher = slice_to_vec(msg.bytes(), 4, len);
        let mut inner = Message::from_bytes(0, cipher);
        if decrypt(nonce, &mut inner, secret, self.is_initiator).is_err() {
            return Err(DecryptError::DecryptErr(DecryptErr::Decrypt));
        }
        if !rp.check_nonce(nonce) {
            return Err(DecryptError::DecryptErr(DecryptErr::Replay));
        }
        msg.replace(inner.bytes);
        Ok(())
    }

    /// Reads a hello or key packet (see `handshake_outcome`).
    fn decrypt_handshake(
        &mut self,
        rp: &mut ReplayProtector,
        ctx: &CryptoAuth,
        msg: &mut Message,
    ) -> (r: Result<(), DecryptError>)
        requires
            old(self)@.wf(),
            old(msg).wf(),
            old(msg).bytes@.len() >= 20,
            be32_value(old(msg).bytes@) < 4,
            old(self)@.established ==> be32_value(old(msg).bytes@) < 2,
        ensures
            final(self)@.wf(),
            final(msg).wf(),
            handshake_effect(
                handshake_outcome(
                    old(self)@,
                    ctx.users(),
                    ctx.spec_private_key(),
                    ctx.spec_public_key(),
                    old(msg).bytes@,
                ),
                r,
                old(self)@,
                final(self)@,
                *old(rp),
                *final(rp),
                *old(msg),
                *final(msg),
            ),
    {
        let ghost s0 = self@;
        let ghost b = msg.bytes@;
        let len = msg.len();
        if len < HEADER_SIZE {
            return Err(DecryptError::DecryptErr(DecryptErr::Runt));
        }
        let nonce = read_be32(msg.bytes());
        let key_in_packet: [u8; 32] = take_array(msg.bytes(), PUBLIC_KEY_OFFSET);
        if !bytes_eq(self.her_public_key.as_slice(), key_in_packet.as_slice()) {
            return Err(DecryptError::DecryptErr(DecryptErr::WrongPermPubkey));
        }
        let challenge = Challenge::parse(msg.bytes(), AUTH_OFFSET);
        let user = ctx.get_auth(&challenge);
        let mut password_hash: Option<[u8; 32]> = None;
        if let Some(i) = user {
            let (secret, restricted) = ctx.user_secret(i);
            password_hash = Some(secret);
            if let Some(ip) = restricted {
                if !bytes_eq(ip.as_slice(), self.her_ip6.as_slice()) {
                    return Err(DecryptError::DecryptErr(DecryptErr::IpRestricted));
                }
            }
        }
        if self.require_auth && user.is_none() {
            return Err(DecryptError::DecryptErr(DecryptErr::AuthRequired));
        }
        if user.is_none() && challenge.auth_type != 0 {
            return Err(DecryptError::DecryptErr(DecryptErr::UnrecognizedAuth));
        }
        let shared_secret = if nonce < 2 {
            get_shared_secret(ctx.private_key(), self.her_public_key, password_hash)
        } else {
            if !self.is_initiator {
                return Err(DecryptError::DecryptErr(DecryptErr::StrayKey));
            }
            get_shared_secret(self.our_temp_priv_key, self.her_public_key, password_hash)
        };
        let hs_nonce: [u8; 24] = take_array(msg.bytes(), HANDSHAKE_NONCE_OFFSET);
        let sealed = slice_to_vec(msg.bytes(), SEALED_OFFSET, len);
        let mut inner = Message::from_bytes(0, sealed);
        if decrypt_rnd_nonce(hs_nonce, &mut inner, shared_secret).is_err() {
            return Err(DecryptError::DecryptErr(DecryptErr::HandshakeDecryptFailed));
        }
        let ghost plain = inner.bytes@;
        let temp: [u8; 32] = take_array(inner.bytes(), 0);
        let payload = slice_to_vec(inner.bytes(), 32, inner.len());
        assert(handshake_outcome(s0, ctx.users(), ctx.spec_private_key(), ctx.spec_public_key(), b)
            == handshake_step(s0, ctx.spec_public_key(), nonce, temp@, payload@));
        if is_zero(temp.as_slice()) {
            return Err(DecryptError::DecryptErr(DecryptErr::Wiseguy));
        }
        let known = bytes_eq(self.her_temp_pub_key.as_slice(), temp.as_slice());
        if nonce == 0 && known {
            return Err(DecryptError::DecryptErr(DecryptErr::InvalidPacket));
        }
        if nonce == 2 && self.next_nonce >= 4 && known {
            return Err(DecryptError::DecryptErr(DecryptErr::InvalidPacket));
        }
        if nonce == 3 && self.next_nonce >= 4 && !known {
            return Err(DecryptError::DecryptErr(DecryptErr::InvalidPacket));
        }
        if nonce >= 2 {
            let state = self.next_nonce;
            if state == 0 || state == 2 || state == 3 {
                return Err(DecryptError::DecryptErr(DecryptErr::StrayKey));
            } else if state <= 4 {
                self.her_temp_pub_key = temp;
                self.next_nonce = 4;
            } else {
                if self.established || state == u32::MAX {
                    return Err(DecryptError::Internal("nonce sequence error"));
                }
                self.her_temp_pub_key = temp;
                if nonce == 2 {
                    // A new key packet while we already send traffic: the peer started
                    // over in the middle of the handshake.
                    self.shared_secret = get_shared_secret(self.our_temp_priv_key, temp, None);
                }
                self.next_nonce = state + 1;
            }
        } else if !known {
            let state = self.next_nonce;
            // Two hellos crossed on the wire: the side with the greater permanent key
            // keeps its own handshake, the other gives way.
            if state == 1 && greater(ctx.public_key().as_slice(), self.her_public_key.as_slice()) {
                msg.replace(payload);
                return Ok(());
            } else if state == 0 {
                self.her_temp_pub_key = temp;
                self.next_nonce = 2;
            } else {
                self.reset();
                self.her_temp_pub_key = temp;
                self.next_nonce = 2;
            }
        } else {
            let state = self.next_nonce;
            if state != 2 && state != 3 {
                return Err(DecryptError::DecryptErr(DecryptErr::InvalidPacket));
            }
        }
        rp.reset();
        msg.replace(payload);
        Ok(())
    }
}

} // verus!
