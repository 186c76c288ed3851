//! Authenticated key exchange and per-packet encryption between two peers
//! identified by long-lived Curve25519 keys.
pub mod auth;
pub mod bytes;
pub mod crypto;
pub mod header;
pub mod keys;
pub mod message;
pub mod model;
pub mod nacl;
pub mod replay;
pub mod session;

pub use auth::{AddUserError, CryptoAuth};
pub use keys::KeyError;
pub use message::Message;
pub use session::{DecryptErr, DecryptError, EncryptError, Session, SessionMut, State};
