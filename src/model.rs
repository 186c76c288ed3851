//! A session as the contracts see it, and what sending and receiving do to it: the
//! handshake transition table, the packet layouts, and the laws that follow.
use vstd::prelude::*;

use crate::auth::{first_match, UserView};
use crate::bytes::{all_zero, be32_bytes, be32_value, bytes_greater, lemma_greater_total};
use crate::crypto::{counter_nonce, lookup_hash_of, shared_secret_of};
use crate::header::{AuthType, HEADER_SIZE};
use crate::keys::ip6_of;
use crate::message::Message;
use crate::nacl::{open_of, precompute_of, scalarmult_base_of, seal_of, sha256_of};
use crate::replay::{checked, ReplayProtector};
use crate::session::{DecryptErr, DecryptError, State, MAX_NONCE};

verus! {

/// Thirty-two zero bytes.
pub open spec fn zero32() -> Seq<u8> {
    Seq::new(32, |i: int| 0u8)
}

/// The state of a session, as the contracts speak of it.
#[verifier::ext_equal]
pub struct SessionView {
    pub her_public_key: Seq<u8>,
    pub her_ip6: Seq<u8>,
    pub display_name: Option<Seq<char>>,
    pub reset_after_inactivity_seconds: u32,
    pub setup_reset_after_inactivity_seconds: u32,
    pub shared_secret: Seq<u8>,
    pub her_temp_pub_key: Seq<u8>,
    pub our_temp_priv_key: Seq<u8>,
    pub our_temp_pub_key: Seq<u8>,
    pub password: Option<Seq<u8>>,
    pub login: Option<Seq<u8>>,
    pub next_nonce: u32,
    pub time_of_last_packet: u32,
    pub auth_type: AuthType,
    pub is_initiator: bool,
    pub require_auth: bool,
    pub established: bool,
}

impl SessionView {
    /// The session started over: no ephemeral keys, no secret, back to `Init`.
    pub open spec fn reset(self) -> SessionView {
        SessionView {
            next_nonce: 0,
            is_initiator: false,
            our_temp_priv_key: zero32(),
            our_temp_pub_key: zero32(),
            her_temp_pub_key: zero32(),
            shared_secret: zero32(),
            established: false,
            ..self
        }
    }

    /// Nothing came in for long enough that the session must start over at `now`.
    /// A session that has just sent a hello waits for the answer instead.
    pub open spec fn timed_out(self, now: u32) -> bool {
        let delta = now - self.time_of_last_packet;
        &&& self.next_nonce != 1
        &&& delta >= self.setup_reset_after_inactivity_seconds
        &&& (delta >= self.reset_after_inactivity_seconds || !self.established)
    }

    /// The session after the inactivity check at `now`.
    pub open spec fn after_timeout(self, now: u32) -> SessionView {
        if self.timed_out(now) {
            SessionView { time_of_last_packet: now, ..self.reset() }
        } else {
            self
        }
    }

    /// The session after `set_auth(p, l)`. Clearing the password clears the type of
    /// authentication; a new password sets type 1, or type 2 with a login. Any change
    /// starts the session over.
    pub open spec fn with_auth(self, p: Option<Seq<u8>>, l: Option<Seq<u8>>) -> SessionView {
        if p is None && (self.password is Some || self.auth_type != AuthType::Zero) {
            SessionView { password: None, auth_type: AuthType::Zero, ..self }.reset()
        } else if self.password is None || self.password != p {
            if l is Some {
                SessionView { password: p, auth_type: AuthType::Two, login: l, ..self }.reset()
            } else {
                SessionView { password: p, auth_type: AuthType::One, ..self }.reset()
            }
        } else {
            self
        }
    }

    /// The session's phase.
    pub open spec fn state(self) -> State {
        if self.next_nonce == 0 {
            State::Init
        } else if self.next_nonce == 1 {
            State::SentHello
        } else if self.next_nonce == 2 {
            State::ReceivedHello
        } else if self.next_nonce == 3 {
            State::SentKey
        } else if self.next_nonce > 4 && self.established {
            State::Established
        } else {
            State::ReceivedKey
        }
    }
}

impl SessionView {
    /// The session's invariant: the peer's ephemeral key is known exactly from
    /// `ReceivedHello` on; the peer's permanent key is set and its address is derived
    /// from it; a password always comes with a type of authentication.
    pub open spec fn wf(self) -> bool {
        &&& (self.next_nonce < 2) == all_zero(self.her_temp_pub_key)
        &&& self.her_temp_pub_key.len() == 32
        &&& !all_zero(self.her_public_key)
        &&& self.her_ip6 == ip6_of(self.her_public_key)
        &&& (self.password is Some ==> self.auth_type != AuthType::Zero)
    }
}

pub(crate) proof fn lemma_zero32()
    ensures
        all_zero(zero32()),
        zero32().len() == 32,
{
}

impl SessionView {
    /// The session as `encrypt` finds it: after the inactivity check, and started over
    /// when the packet counter is about to wrap.
    pub open spec fn prepared(self, now: u32) -> SessionView {
        let t = self.after_timeout(now);
        if t.next_nonce >= MAX_NONCE {
            t.reset()
        } else {
            t
        }
    }

    /// The password hash mixed into a handshake that we send, when we have credentials.
    pub open spec fn offered_password_hash(self) -> Option<Seq<u8>> {
        match (self.login, self.password) {
            (Some(l), Some(p)) => Some(sha256_of(p)),
            _ => None,
        }
    }

    /// The challenge of a handshake that we send: the hashed credentials, or the type
    /// alone followed by zeros.
    pub open spec fn offered_challenge(self) -> Seq<u8> {
        match (self.login, self.password) {
            (Some(l), Some(p)) => seq![self.auth_type.spec_code()] + lookup_hash_of(
                l,
                p,
                self.auth_type,
            ).subrange(1, 8) + seq![0u8, 0u8, 0u8, 0u8],
            _ => seq![self.auth_type.spec_code()] + Seq::new(11, |i: int| 0u8),
        }
    }

    /// The session after it sends a hello (below `ReceivedHello`) or a key packet; a first
    /// hello or key makes a fresh ephemeral keypair from the private key `tpriv`.
    pub open spec fn after_handshake_sent(self, tpriv: Seq<u8>) -> SessionView {
        let v = if self.next_nonce == 0 || self.next_nonce == 2 {
            SessionView {
                our_temp_priv_key: tpriv,
                our_temp_pub_key: scalarmult_base_of(tpriv),
                ..self
            }
        } else {
            self
        };
        if self.next_nonce < 2 {
            SessionView { is_initiator: true, next_nonce: 1, ..v }
        } else {
            SessionView { next_nonce: 3, ..v }
        }
    }

    /// The key that seals a handshake we send: with the peer's permanent key for a hello,
    /// with her ephemeral key for a key packet.
    pub open spec fn handshake_secret(self, my_private_key: Seq<u8>) -> Seq<u8> {
        if self.next_nonce < 2 {
            shared_secret_of(my_private_key, self.her_public_key, self.offered_password_hash())
        } else {
            shared_secret_of(my_private_key, self.her_temp_pub_key, self.offered_password_hash())
        }
    }

    /// The handshake packet we send with `payload`, with the random handshake nonce
    /// `hs_nonce`.
    pub open spec fn handshake_packet(
        self,
        my_private_key: Seq<u8>,
        my_public_key: Seq<u8>,
        payload: Seq<u8>,
        hs_nonce: Seq<u8>,
        tpriv: Seq<u8>,
    ) -> Seq<u8> {
        be32_bytes(self.next_nonce) + self.offered_challenge() + hs_nonce + my_public_key
            + seal_of(
            self.handshake_secret(my_private_key),
            hs_nonce,
            self.after_handshake_sent(tpriv).our_temp_pub_key + payload,
        )
    }

    /// The key for traffic: from both ephemeral keys once the key packet came in.
    pub open spec fn traffic_secret(self) -> Seq<u8> {
        if self.next_nonce == 4 {
            precompute_of(self.her_temp_pub_key, self.our_temp_priv_key)
        } else {
            self.shared_secret
        }
    }

    /// A traffic packet: the counter, big-endian, then the sealed payload.
    pub open spec fn traffic_packet(self, payload: Seq<u8>) -> Seq<u8> {
        be32_bytes(self.next_nonce) + seal_of(
            self.traffic_secret(),
            counter_nonce(self.next_nonce, self.is_initiator),
            payload,
        )
    }
}

/// What `encrypt` does, given the random bytes it drew: `hs_nonce` (24 bytes, the
/// handshake nonce) and `tpriv` (an ephemeral private key). `s0`, `m0` are the session
/// and message before, `s1`, `m1` after, `ok` tells success.
pub open spec fn encrypt_relation(
    s0: SessionView,
    my_private_key: Seq<u8>,
    my_public_key: Seq<u8>,
    m0: Message,
    now: u32,
    hs_nonce: Seq<u8>,
    tpriv: Seq<u8>,
    ok: bool,
    s1: SessionView,
    m1: Message,
) -> bool {
    let p = s0.prepared(now);
    let unchanged_msg = m1.bytes@ == m0.bytes@ && m1.pad == m0.pad;
    if m0.pad % 4 != 0 {
        !ok && s1 == p && unchanged_msg
    } else if p.next_nonce < 4 {
        if m0.pad < HEADER_SIZE {
            !ok && s1 == p && unchanged_msg
        } else {
            &&& ok
            &&& s1 == p.after_handshake_sent(tpriv)
            &&& m1.bytes@ == p.handshake_packet(
                my_private_key,
                my_public_key,
                m0.bytes@,
                hs_nonce,
                tpriv,
            )
            &&& m1.bytes@.len() == m0.bytes@.len() + HEADER_SIZE
            &&& m1.pad == m0.pad - HEADER_SIZE
        }
    } else {
        let q = SessionView { shared_secret: p.traffic_secret(), ..p };
        if m0.bytes@.len() == 0 || m0.pad < 36 {
            !ok && s1 == q && unchanged_msg
        } else {
            &&& ok
            &&& s1 == SessionView { next_nonce: (p.next_nonce + 1) as u32, ..q }
            &&& m1.bytes@ == p.traffic_packet(m0.bytes@)
            &&& m1.bytes@.len() == m0.bytes@.len() + 20
            &&& m1.pad == m0.pad - 20
        }
    }
}

/// What a handshake packet does to a session.
pub enum HandshakeOutcome {
    /// Dropped with this error; nothing changes.
    Reject(DecryptErr),
    /// Dropped as a fault of this library; nothing changes.
    Fault,
    /// Accepted with this payload, but the session keeps its state (crossed hellos,
    /// when our permanent key is the greater).
    Hold(Seq<u8>),
    /// Accepted: the session becomes this, the replay window is cleared, and the
    /// message becomes the payload.
    Accept(SessionView, Seq<u8>),
}

/// The step a decrypted handshake makes, given the kind `n` of the packet, the ephemeral
/// key `temp` it carries and its `payload`.
pub open spec fn handshake_step(
    v: SessionView,
    my_public_key: Seq<u8>,
    n: u32,
    temp: Seq<u8>,
    payload: Seq<u8>,
) -> HandshakeOutcome {
    let known = v.her_temp_pub_key == temp;
    if all_zero(temp) {
        HandshakeOutcome::Reject(DecryptErr::Wiseguy)
    } else if n == 0 && known {
        HandshakeOutcome::Reject(DecryptErr::InvalidPacket)
    } else if n == 2 && v.next_nonce >= 4 && known {
        HandshakeOutcome::Reject(DecryptErr::InvalidPacket)
    } else if n == 3 && v.next_nonce >= 4 && !known {
        HandshakeOutcome::Reject(DecryptErr::InvalidPacket)
    } else if n >= 2 {
        if v.next_nonce == 0 || v.next_nonce == 2 || v.next_nonce == 3 {
            HandshakeOutcome::Reject(DecryptErr::StrayKey)
        } else if v.next_nonce <= 4 {
            HandshakeOutcome::Accept(
                SessionView { her_temp_pub_key: temp, next_nonce: 4, ..v },
                payload,
            )
        } else if v.established || v.next_nonce == u32::MAX {
            HandshakeOutcome::Fault
        } else {
            HandshakeOutcome::Accept(
                SessionView {
                    her_temp_pub_key: temp,
                    shared_secret: if n == 2 {
                        precompute_of(temp, v.our_temp_priv_key)
                    } else {
                        v.shared_secret
                    },
                    next_nonce: (v.next_nonce + 1) as u32,
                    ..v
                },
                payload,
            )
        }
    } else if !known {
        if v.next_nonce == 1 && bytes_greater(my_public_key, v.her_public_key) {
            HandshakeOutcome::Hold(payload)
        } else if v.next_nonce == 0 {
            HandshakeOutcome::Accept(
                SessionView { her_temp_pub_key: temp, next_nonce: 2, ..v },
                payload,
            )
        } else {
            HandshakeOutcome::Accept(
                SessionView { her_temp_pub_key: temp, next_nonce: 2, ..v.reset() },
                payload,
            )
        }
    } else if v.next_nonce == 2 || v.next_nonce == 3 {
        HandshakeOutcome::Accept(v, payload)
    } else {
        HandshakeOutcome::Reject(DecryptErr::InvalidPacket)
    }
}

/// What the handshake packet `b` (with its 4-byte nonce in front) does to session `v`,
/// with the registered `users` and this node's keys.
pub open spec fn handshake_outcome(
    v: SessionView,
    users: Seq<UserView>,
    my_private_key: Seq<u8>,
    my_public_key: Seq<u8>,
    b: Seq<u8>,
) -> HandshakeOutcome {
    let n = be32_value(b);
    let found = first_match(users, b[4], b.subrange(5, 12));
    let user = match found {
        Some(i) => Some(users[i]),
        None => None,
    };
    if b.len() < 120 {
        HandshakeOutcome::Reject(DecryptErr::Runt)
    } else if b.subrange(40, 72) != v.her_public_key {
        HandshakeOutcome::Reject(DecryptErr::WrongPermPubkey)
    } else if user is Some && user->0.restricted_to_ip6 is Some
        && user->0.restricted_to_ip6 != Some(v.her_ip6) {
        HandshakeOutcome::Reject(DecryptErr::IpRestricted)
    } else if v.require_auth && user is None {
        HandshakeOutcome::Reject(DecryptErr::AuthRequired)
    } else if user is None && b[4] != 0 {
        HandshakeOutcome::Reject(DecryptErr::UnrecognizedAuth)
    } else if n >= 2 && !v.is_initiator {
        HandshakeOutcome::Reject(DecryptErr::StrayKey)
    } else {
        let password_hash = match user {
            Some(u) => Some(u.secret),
            None => None,
        };
        let secret = if n < 2 {
            shared_secret_of(my_private_key, v.her_public_key, password_hash)
        } else {
            shared_secret_of(v.our_temp_priv_key, v.her_public_key, password_hash)
        };
        match open_of(secret, b.subrange(16, 40), b.subrange(72, b.len() as int)) {
            None => HandshakeOutcome::Reject(DecryptErr::HandshakeDecryptFailed),
            Some(plain) => handshake_step(
                v,
                my_public_key,
                n,
                plain.subrange(0, 32),
                plain.subrange(32, plain.len() as int),
            ),
        }
    }
}

/// The replay window was cleared, its counters kept.
pub open spec fn replay_cleared(before: ReplayProtector, after: ReplayProtector) -> bool {
    &&& after.base_offset == 0
    &&& forall|m: u32| #![trigger after.accepts(m)] after.accepts(m)
    &&& after.stats() == before.stats()
}

/// How a handshake `outcome` shows in the result `r`, the session, the replay window
/// and the message.
pub open spec fn handshake_effect(
    outcome: HandshakeOutcome,
    r: Result<(), DecryptError>,
    s0: SessionView,
    s1: SessionView,
    rp0: ReplayProtector,
    rp1: ReplayProtector,
    m0: Message,
    m1: Message,
) -> bool {
    let unchanged = s1 == s0 && rp1 == rp0 && m1.bytes@ == m0.bytes@ && m1.pad == m0.pad;
    match outcome {
        HandshakeOutcome::Reject(e) => r == Err::<(), _>(DecryptError::DecryptErr(e)) && unchanged,
        HandshakeOutcome::Fault => r is Err && r->Err_0 is Internal && unchanged,
        HandshakeOutcome::Hold(p) => r is Ok && s1 == s0 && rp1 == rp0 && m1.bytes@ == p
            && m1.bytes@.len() + HEADER_SIZE == m0.bytes@.len(),
        HandshakeOutcome::Accept(v, p) => r is Ok && s1 == v && replay_cleared(rp0, rp1)
            && m1.bytes@ == p && m1.bytes@.len() + HEADER_SIZE == m0.bytes@.len(),
    }
}

/// The traffic payload of packet `b` (4-byte counter in front) opened with `secret` by a
/// session whose initiator flag is `is_initiator`.
pub open spec fn traffic_plain(b: Seq<u8>, secret: Seq<u8>, is_initiator: bool) -> Option<Seq<u8>> {
    open_of(secret, counter_nonce(be32_value(b), !is_initiator), b.subrange(4, b.len() as int))
}

/// What `decrypt` does with packet `m0` to session `s0` and replay window `rp0`, given the
/// registered `users`, this node's keys and the time `now`.
pub open spec fn decrypt_relation(
    s0: SessionView,
    rp0: ReplayProtector,
    users: Seq<UserView>,
    my_private_key: Seq<u8>,
    my_public_key: Seq<u8>,
    m0: Message,
    now: u32,
    r: Result<(), DecryptError>,
    s1: SessionView,
    rp1: ReplayProtector,
    m1: Message,
) -> bool {
    let b = m0.bytes@;
    let n = be32_value(b);
    let same_msg = m1.bytes@ == m0.bytes@ && m1.pad == m0.pad;
    let unchanged = s1 == s0 && rp1 == rp0 && same_msg;
    if b.len() < 20 {
        r == Err::<(), _>(DecryptError::DecryptErr(DecryptErr::Runt)) && unchanged
    } else if m0.pad < 12 || m0.pad % 4 != 0 || (m0.pad + b.len()) % 4 != 0 {
        r is Err && r->Err_0 is Internal && unchanged
    } else if n >= 4 && !s0.established {
        let secret = precompute_of(s0.her_temp_pub_key, s0.our_temp_priv_key);
        let plain = traffic_plain(b, secret, s0.is_initiator);
        if s0.next_nonce < 3 {
            r == Err::<(), _>(DecryptError::DecryptErr(DecryptErr::NoSession)) && unchanged
        } else if s0.next_nonce > u32::MAX - 3 {
            r is Err && r->Err_0 is Internal && unchanged
        } else {
            // The window restarts above this counter whatever comes of it.
            &&& rp1.base_offset == (n + 1) % 0x1_0000_0000
            &&& forall|m: u32| #![trigger rp1.seen(m)] !rp1.seen(m)
            &&& if plain is None {
                r == Err::<(), _>(DecryptError::DecryptErr(DecryptErr::Decrypt)) && s1 == s0
                    && same_msg
            } else if !rp0.accepts(n) {
                r == Err::<(), _>(DecryptError::DecryptErr(DecryptErr::Replay)) && s1 == s0
                    && same_msg
            } else {
                &&& r is Ok
                &&& s1 == SessionView {
                    shared_secret: secret,
                    established: true,
                    next_nonce: (s0.next_nonce + 3) as u32,
                    time_of_last_packet: now,
                    ..s0
                }
                &&& m1.bytes@ == plain->0
                &&& m1.bytes@.len() + 20 == b.len()
            }
        }
    } else if n >= 4 {
        let plain = traffic_plain(b, s0.shared_secret, s0.is_initiator);
        if plain is None {
            r == Err::<(), _>(DecryptError::DecryptErr(DecryptErr::Decrypt)) && unchanged
        } else {
            &&& checked(rp0, rp1, n, r is Ok)
            &&& if !rp0.accepts(n) {
                r == Err::<(), _>(DecryptError::DecryptErr(DecryptErr::Replay)) && s1 == s0
                    && same_msg
            } else {
                &&& r is Ok
                &&& s1 == SessionView { time_of_last_packet: now, ..s0 }
                &&& m1.bytes@ == plain->0
                &&& m1.bytes@.len() + 20 == b.len()
            }
        }
    } else if s0.established && n >= 2 {
        r == Err::<(), _>(DecryptError::DecryptErr(DecryptErr::KeyPktEstablishedSession))
            && unchanged
    } else {
        handshake_effect(
            handshake_outcome(s0, users, my_private_key, my_public_key, b),
            r,
            s0,
            s1,
            rp0,
            rp1,
            m0,
            m1,
        )
    }
}

/// The counter of a packet that `be32_bytes` wrote reads back as itself.
pub proof fn lemma_be32_round_trip(x: u32, rest: Seq<u8>)
    ensures
        be32_value(be32_bytes(x) + rest) == x,
{
    let b = be32_bytes(x) + rest;
    assert(b[0] == (x / 0x1000000) as u8);
    assert(b[1] == ((x / 0x10000) % 0x100) as u8);
    assert(b[2] == ((x / 0x100) % 0x100) as u8);
    assert(b[3] == (x % 0x100) as u8);
    assert((x / 0x1000000) * 0x1000000 + ((x / 0x10000) % 0x100) * 0x10000 + ((x / 0x100)
        % 0x100) * 0x100 + x % 0x100 == x) by (nonlinear_arith);
}

/// A well-formed session knows the peer's ephemeral key exactly from `ReceivedHello` on.
pub proof fn lemma_temp_key_known(s: SessionView)
    requires
        s.wf(),
    ensures
        (s.next_nonce < 2) <==> all_zero(s.her_temp_pub_key),
{
}

/// After a reset the session is back at `Init`: not established, not the initiator, and
/// with no ephemeral keys and no shared secret.
pub proof fn lemma_reset_clears(s: SessionView)
    ensures
        s.reset().next_nonce == 0,
        !s.reset().established,
        !s.reset().is_initiator,
        all_zero(s.reset().our_temp_priv_key),
        all_zero(s.reset().our_temp_pub_key),
        all_zero(s.reset().her_temp_pub_key),
        all_zero(s.reset().shared_secret),
        s.reset().her_public_key == s.her_public_key,
{
}

/// When two hellos cross on the wire, exactly one of the two sessions keeps its own
/// handshake and the other gives way: `a` gets `b`'s hello with ephemeral key `tb`, and
/// `b` gets `a`'s with `ta`.
pub proof fn lemma_crossed_hellos(
    va: SessionView,
    vb: SessionView,
    a_public_key: Seq<u8>,
    b_public_key: Seq<u8>,
    ta: Seq<u8>,
    tb: Seq<u8>,
    pa: Seq<u8>,
    pb: Seq<u8>,
)
    requires
        va.wf(),
        vb.wf(),
        va.next_nonce == 1,
        vb.next_nonce == 1,
        va.her_public_key == b_public_key,
        vb.her_public_key == a_public_key,
        a_public_key.len() == b_public_key.len(),
        a_public_key != b_public_key,
        !all_zero(ta),
        !all_zero(tb),
    ensures
        handshake_step(va, a_public_key, 0, tb, pb) is Hold != handshake_step(
            vb,
            b_public_key,
            0,
            ta,
            pa,
        ) is Hold,
        handshake_step(va, a_public_key, 0, tb, pb) is Hold || handshake_step(
            va,
            a_public_key,
            0,
            tb,
            pb,
        ) == HandshakeOutcome::Accept(
            SessionView { her_temp_pub_key: tb, next_nonce: 2, ..va.reset() },
            pb,
        ),
        handshake_step(vb, b_public_key, 0, ta, pa) is Hold || handshake_step(
            vb,
            b_public_key,
            0,
            ta,
            pa,
        ) == HandshakeOutcome::Accept(
            SessionView { her_temp_pub_key: ta, next_nonce: 2, ..vb.reset() },
            pa,
        ),
{
    lemma_greater_total(a_public_key, b_public_key);
}

/// An established session drops a repeat hello that carries the ephemeral key it already
/// knows as invalid, and so keeps its state.
pub proof fn lemma_known_repeat_hello_dropped(
    v: SessionView,
    my_public_key: Seq<u8>,
    temp: Seq<u8>,
    payload: Seq<u8>,
)
    requires
        v.wf(),
        v.established,
        v.next_nonce > 4,
        temp == v.her_temp_pub_key,
    ensures
        handshake_step(v, my_public_key, 1, temp, payload) == HandshakeOutcome::Reject(
            DecryptErr::InvalidPacket,
        ),
{
}

/// Two traffic packets sent one after the other, with no reset in between (no inactivity
/// timeout, the counter below the wrap limit), carry increasing counters.
pub proof fn lemma_traffic_nonces_increase(
    s0: SessionView,
    my_private_key: Seq<u8>,
    my_public_key: Seq<u8>,
    m0: Message,
    now0: u32,
    nonce0: Seq<u8>,
    tpriv0: Seq<u8>,
    s1: SessionView,
    m1: Message,
    m2: Message,
    now1: u32,
    nonce1: Seq<u8>,
    tpriv1: Seq<u8>,
    s2: SessionView,
    m3: Message,
)
    requires
        encrypt_relation(s0, my_private_key, my_public_key, m0, now0, nonce0, tpriv0, true, s1, m1),
        s0.prepared(now0).next_nonce >= 4,
        encrypt_relation(s1, my_private_key, my_public_key, m2, now1, nonce1, tpriv1, true, s2, m3),
        !s1.timed_out(now1),
        s1.next_nonce < MAX_NONCE,
    ensures
        s1.next_nonce == s0.prepared(now0).next_nonce + 1,
        be32_value(m3.bytes@) == s1.next_nonce,
        be32_value(m1.bytes@) < be32_value(m3.bytes@),
{
    let prep0 = s0.prepared(now0);
    let prep1 = s1.prepared(now1);
    assert(prep1 == s1);
    lemma_be32_round_trip(
        prep0.next_nonce,
        seal_of(prep0.traffic_secret(), counter_nonce(prep0.next_nonce, prep0.is_initiator), m0.bytes@),
    );
    lemma_be32_round_trip(
        prep1.next_nonce,
        seal_of(prep1.traffic_secret(), counter_nonce(prep1.next_nonce, prep1.is_initiator), m2.bytes@),
    );
}

/// A traffic packet accepted by an established session is refused as a replay when a
/// packet with the same counter comes again and opens.
pub proof fn lemma_replay_rejected(
    s0: SessionView,
    rp0: ReplayProtector,
    users: Seq<UserView>,
    my_private_key: Seq<u8>,
    my_public_key: Seq<u8>,
    m0: Message,
    now0: u32,
    s1: SessionView,
    rp1: ReplayProtector,
    m1: Message,
    m2: Message,
    now1: u32,
    r: Result<(), DecryptError>,
    s2: SessionView,
    rp2: ReplayProtector,
    m3: Message,
)
    requires
        s0.established,
        be32_value(m0.bytes@) >= 4,
        decrypt_relation(
            s0,
            rp0,
            users,
            my_private_key,
            my_public_key,
            m0,
            now0,
            Ok(()),
            s1,
            rp1,
            m1,
        ),
        m2.bytes@.len() >= 20,
        m2.pad >= 12 && m2.pad % 4 == 0 && (m2.pad + m2.bytes@.len()) % 4 == 0,
        be32_value(m2.bytes@) == be32_value(m0.bytes@),
        traffic_plain(m2.bytes@, s1.shared_secret, s1.is_initiator) is Some,
        decrypt_relation(s1, rp1, users, my_private_key, my_public_key, m2, now1, r, s2, rp2, m3),
    ensures
        r == Err::<(), _>(DecryptError::DecryptErr(DecryptErr::Replay)),
{
    let n = be32_value(m0.bytes@);
    assert(rp1.seen(n));
}

} // verus!
