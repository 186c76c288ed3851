//! The authenticator: this node's permanent keypair and the registry of users allowed
//! to authenticate handshakes by password.
use vstd::prelude::*;

use crate::bytes::{bytes_eq, slice_to_vec};
use crate::crypto::hash_password;
use crate::header::{AuthType, Challenge};
use crate::nacl::{random_bytes, scalarmult_base, scalarmult_base_of, sha256_of};

verus! {

/// A registered user.
pub struct User {
    /// Bytes 1 to 7 of `SHA-256(SHA-256(password))`: the lookup for challenges of type 1.
    pub password_hash: [u8; 7],
    /// Bytes 1 to 7 of `SHA-256(login)`: the lookup for challenges of type 2.
    pub user_name_hash: [u8; 7],
    /// `SHA-256(password)`, mixed into the shared secret.
    pub secret: [u8; 32],
    pub login: Vec<u8>,
    /// The login was given when the user was added, not assigned.
    pub login_given: bool,
    /// When set, only the key that hashes to this address may claim the user.
    pub restricted_to_ip6: Option<[u8; 16]>,
}

/// What the contracts know of a user.
pub struct UserView {
    pub password_hash: Seq<u8>,
    pub user_name_hash: Seq<u8>,
    pub secret: Seq<u8>,
    pub login: Seq<u8>,
    pub login_given: bool,
    pub restricted_to_ip6: Option<Seq<u8>>,
}

impl View for User {
    type V = UserView;

    open spec fn view(&self) -> UserView {
        UserView {
            password_hash: self.password_hash@,
            user_name_hash: self.user_name_hash@,
            secret: self.secret@,
            login: self.login@,
            login_given: self.login_given,
            restricted_to_ip6: match self.restricted_to_ip6 {
                Some(ip) => Some(ip@),
                None => None,
            },
        }
    }
}

impl User {
    fn copy(&self) -> (r: User)
        ensures
            r@ == self@,
    {
        assert(self.login@.subrange(0, self.login@.len() as int) =~= self.login@);
        User {
            password_hash: self.password_hash,
            user_name_hash: self.user_name_hash,
            secret: self.secret,
            login: slice_to_vec(self.login.as_slice(), 0, self.login.len()),
            login_given: self.login_given,
            restricted_to_ip6: self.restricted_to_ip6,
        }
    }
}

/// Why a user could not be added.
#[derive(Debug, PartialEq, Eq)]
pub enum AddUserError {
    /// Another user already has this login.
    Duplicate { login: Vec<u8> },
}

/// The user is the one that a challenge of type `t` with `lookup` asks for.
pub open spec fn user_matches(u: UserView, t: u8, lookup: Seq<u8>) -> bool {
    (t == 1 && u.password_hash == lookup) || (t == 2 && u.user_name_hash == lookup)
}

/// Index of the first user from `i` on that a challenge of type `t` with `lookup` asks for.
pub open spec fn first_match_from(users: Seq<UserView>, t: u8, lookup: Seq<u8>, i: int) -> Option<
    int,
>
    decreases users.len() - i,
{
    if i < 0 || i >= users.len() {
        None
    } else if user_matches(users[i], t, lookup) {
        Some(i)
    } else {
        first_match_from(users, t, lookup, i + 1)
    }
}

/// Index of the first user that a challenge of type `t` with `lookup` asks for.
pub open spec fn first_match(users: Seq<UserView>, t: u8, lookup: Seq<u8>) -> Option<int> {
    first_match_from(users, t, lookup, 0)
}

/// The view of an optional byte vector.
pub open spec fn opt_view(o: Option<Vec<u8>>) -> Option<Seq<u8>> {
    match o {
        Some(v) => Some(v@),
        None => None,
    }
}

/// The decimal digits of `n`.
pub open spec fn decimal_of(n: nat) -> Seq<u8>
    decreases n,
{
    if n < 10 {
        seq![(48 + n) as u8]
    } else {
        decimal_of(n / 10) + seq![(48 + n % 10) as u8]
    }
}

/// The login given to the user added as the `n`-th without one: `Anon #<n>`.
pub open spec fn anon_login(n: nat) -> Seq<u8> {
    seq![65u8, 110, 111, 110, 32, 35] + decimal_of(n)
}

/// What a user added with `password` and `login` is registered as.
pub open spec fn new_user_view(password: Seq<u8>, login: Seq<u8>, given: bool, ipv6: Option<
    Seq<u8>,
>) -> UserView {
    UserView {
        password_hash: sha256_of(sha256_of(password)).subrange(1, 8),
        user_name_hash: sha256_of(login).subrange(1, 8),
        secret: sha256_of(password),
        login,
        login_given: given,
        restricted_to_ip6: ipv6,
    }
}

/// The users left after removing those with login `login` (all of them when `None`).
pub open spec fn users_kept(users: Seq<UserView>, login: Option<Seq<u8>>) -> Seq<UserView>
    decreases users.len(),
{
    if users.len() == 0 {
        users
    } else {
        let rest = users_kept(users.drop_last(), login);
        let u = users.last();
        if login is None || login == Some(u.login) {
            rest
        } else {
            rest.push(u)
        }
    }
}

fn push_decimal(v: &mut Vec<u8>, n: u64)
    ensures
        final(v)@ == old(v)@ + decimal_of(n as nat),
    decreases n,
{
    if n < 10 {
        v.push((48 + n) as u8);
        assert(final(v)@ =~= old(v)@ + decimal_of(n as nat));
    } else {
        push_decimal(v, n / 10);
        v.push((48 + n % 10) as u8);
        assert(final(v)@ =~= old(v)@ + decimal_of(n as nat));
    }
}

/// The authenticator: this node's keypair and its registered users.
pub struct CryptoAuth {
    public_key: [u8; 32],
    private_key: [u8; 32],
    users: Vec<User>,
}

impl CryptoAuth {
    /// The node's public key.
    pub closed spec fn spec_public_key(&self) -> Seq<u8> {
        self.public_key@
    }

    /// The node's private key.
    pub closed spec fn spec_private_key(&self) -> Seq<u8> {
        self.private_key@
    }

    /// The registered users, in the order they were added.
    pub closed spec fn users(&self) -> Seq<UserView> {
        self.users@.map_values(|u: User| u@)
    }

    /// The registry's invariant: each user's hashes are those of its password and login,
    /// and no two users with given logins share one.
    pub open spec fn wf(&self) -> bool {
        &&& forall|i: int|
            #![trigger self.users()[i]]
            0 <= i < self.users().len() ==> {
                let u = self.users()[i];
                &&& u.password_hash == sha256_of(u.secret).subrange(1, 8)
                &&& u.user_name_hash == sha256_of(u.login).subrange(1, 8)
            }
        &&& forall|i: int, j: int|
            0 <= i < self.users().len() && 0 <= j < self.users().len() && i != j
                && #[trigger] self.users()[i].login_given && #[trigger] self.users()[j].login_given
                ==> self.users()[i].login != self.users()[j].login
    }

    /// An authenticator with the given private key, or a fresh random one, and no users.
    pub fn new(private_key: Option<[u8; 32]>) -> (r: CryptoAuth)
        ensures
            r.wf(),
            r.users().len() == 0,
            r.spec_public_key() == scalarmult_base_of(r.spec_private_key()),
            private_key is Some ==> r.spec_private_key() == private_key->0@,
    {
        let private_key = match private_key {
            Some(k) => k,
            None => {
                let rnd = random_bytes(32);
                crate::bytes::take_array(rnd.as_slice(), 0)
            },
        };
        let public_key = scalarmult_base(&private_key);
        let r = CryptoAuth { public_key, private_key, users: Vec::new() };
        assert(r.users() =~= Seq::<UserView>::empty());
        r
    }

    pub fn public_key(&self) -> (r: [u8; 32])
        ensures
            r@ == self.spec_public_key(),
    {
        self.public_key
    }

    pub fn private_key(&self) -> (r: [u8; 32])
        ensures
            r@ == self.spec_private_key(),
    {
        self.private_key
    }

    /// Registers a user with `password`, and with `login` or else `Anon #<n>`, where `n`
    /// is the number of users. With `ipv6`, only the key that hashes to that address may
    /// authenticate as this user. A given login that another user has is refused; a
    /// password that another user has already is accepted without adding anyone.
    pub fn add_user_ipv6(
        &mut self,
        password: Vec<u8>,
        login: Option<Vec<u8>>,
        ipv6: Option<[u8; 16]>,
    ) -> (r: Result<(), AddUserError>)
        requires
            old(self).wf(),
        ensures
            final(self).wf(),
            final(self).spec_public_key() == old(self).spec_public_key(),
            final(self).spec_private_key() == old(self).spec_private_key(),
            ({
                let users = old(self).users();
                let given = login is Some;
                let name = match login {
                    Some(l) => l@,
                    None => anon_login(users.len()),
                };
                let u = new_user_view(
                    password@,
                    name,
                    given,
                    match ipv6 {
                        Some(ip) => Some(ip@),
                        None => None,
                    },
                );
                if given && exists|i: int| 0 <= i < users.len() && #[trigger] users[i].login == name {
                    r == Err::<(), AddUserError>(AddUserError::Duplicate { login: login->0 })
                        && final(self).users() == users
                } else if exists|i: int| 0 <= i < users.len() && #[trigger] users[i].secret == u.secret {
                    r is Ok && final(self).users() == users
                } else {
                    r is Ok && final(self).users() == users.push(u)
                }
            }),
    {
        let n = self.users.len();
        let given = login.is_some();
        let name: Vec<u8> = match &login {
            Some(l) => slice_to_vec(l.as_slice(), 0, l.len()),
            None => {
                let mut v: Vec<u8> = Vec::new();
                v.push(65);
                v.push(110);
                v.push(111);
                v.push(110);
                v.push(32);
                v.push(35);
                push_decimal(&mut v, n as u64);
                v
            },
        };
        proof {
            if login is None {
                assert(name@ =~= anon_login(old(self).users().len()));
            }
        }
        let (_secret, ac) = hash_password(name.as_slice(), password.as_slice(), AuthType::Two);
        let (secret, ap) = hash_password(&[], password.as_slice(), AuthType::One);
        let ghost users = old(self).users();
        if given {
            let mut i: usize = 0;
            while i < self.users.len()
                invariant
                    0 <= i <= self.users@.len(),
                    *self == *old(self),
                    old(self).wf(),
                    self.users() == users,
                    login is Some,
                    name@ == login->0@,
                    forall|j: int| 0 <= j < i ==> #[trigger] users[j].login != name@,
                decreases self.users@.len() - i,
            {
                assert(users[i as int] == self.users@[i as int]@);
                if bytes_eq(self.users[i].login.as_slice(), name.as_slice()) {
                    return Err(AddUserError::Duplicate { login: login.unwrap() });
                }
                i = i + 1;
            }
        }
        let mut i: usize = 0;
        while i < self.users.len()
            invariant
                0 <= i <= self.users@.len(),
                *self == *old(self),
                old(self).wf(),
                self.users() == users,
                secret@ == sha256_of(password@),
                given == login is Some,
                login is Some ==> name@ == login->0@,
                login is None ==> name@ == anon_login(users.len()),
                given ==> forall|j: int| 0 <= j < users.len() ==> #[trigger] users[j].login != name@,
                forall|j: int| 0 <= j < i ==> #[trigger] users[j].secret != secret@,
            decreases self.users@.len() - i,
        {
            assert(users[i as int] == self.users@[i as int]@);
            if bytes_eq(self.users[i].secret.as_slice(), secret.as_slice()) {
                return Ok(());
            }
            i = i + 1;
        }
        let user = User {
            password_hash: ap.lookup,
            user_name_hash: ac.lookup,
            secret,
            login: name,
            login_given: given,
            restricted_to_ip6: ipv6,
        };
        self.users.push(user);
        assert(self.users() =~= users.push(user@));
        Ok(())
    }

    /// Removes the users with login `login`, or all users when it is `None`, and returns
    /// how many were removed.
    pub fn remove_users(&mut self, login: Option<Vec<u8>>) -> (r: usize)
        requires
            old(self).wf(),
        ensures
            final(self).wf(),
            final(self).spec_public_key() == old(self).spec_public_key(),
            final(self).spec_private_key() == old(self).spec_private_key(),
            final(self).users() == users_kept(
                old(self).users(),
                match login {
                    Some(l) => Some(l@),
                    None => None,
                },
            ),
            r == old(self).users().len() - final(self).users().len(),
    {
        let ghost lv = opt_view(login);
        let ghost users = old(self).users();
        let mut kept: Vec<User> = Vec::new();
        let mut i: usize = 0;
        while i < self.users.len()
            invariant
                0 <= i <= self.users@.len(),
                self.users() == users,
                kept@.map_values(|u: User| u@) == users_kept(users.subrange(0, i as int), lv),
                kept@.len() <= i,
                lv == opt_view(login),
            decreases self.users@.len() - i,
        {
            let remove = match &login {
                None => true,
                Some(l) => bytes_eq(l.as_slice(), self.users[i].login.as_slice()),
            };
            proof {
                assert(users.subrange(0, i + 1).drop_last() =~= users.subrange(0, i as int));
                assert(users.subrange(0, i + 1).last() == users[i as int]);
                assert(users[i as int] == self.users@[i as int]@);
            }
            if !remove {
                let ghost before = kept@;
                kept.push(self.users[i].copy());
                assert(kept@.map_values(|u: User| u@) =~= before.map_values(|u: User| u@).push(
                    users[i as int],
                ));
            }
            proof {
                assert(kept@.map_values(|u: User| u@) =~= users_kept(users.subrange(0, i + 1), lv));
            }
            i = i + 1;
        }
        assert(users.subrange(0, users.len() as int) =~= users);
        let removed = self.users.len() - kept.len();
        self.users = kept;
        proof {
            lemma_kept_sub(users, lv);
            let k = self.users();
            assert forall|i: int| #![trigger k[i]] 0 <= i < k.len() implies {
                &&& k[i].password_hash == sha256_of(k[i].secret).subrange(1, 8)
                &&& k[i].user_name_hash == sha256_of(k[i].login).subrange(1, 8)
            } by {
                let j = choose|j: int| 0 <= j < users.len() && #[trigger] k[i] == users[j];
                assert(users[j] == old(self).users()[j]);
            }
            assert forall|i: int, j: int|
                0 <= i < k.len() && 0 <= j < k.len() && i != j && #[trigger] k[i].login_given
                    && #[trigger] k[j].login_given implies k[i].login != k[j].login by {
                if i < j {
                    let (a, b) = choose|a: int, b: int|
                        0 <= a < b < users.len() && k[i] == #[trigger] users[a] && k[j]
                            == #[trigger] users[b];
                    assert(users[a] == old(self).users()[a]);
                    assert(users[b] == old(self).users()[b]);
                } else {
                    let (a, b) = choose|a: int, b: int|
                        0 <= a < b < users.len() && k[j] == #[trigger] users[a] && k[i]
                            == #[trigger] users[b];
                    assert(users[a] == old(self).users()[a]);
                    assert(users[b] == old(self).users()[b]);
                }
            }
        }
        removed
    }

    /// The logins of all users, in the order they were added.
    pub fn get_users(&self) -> (r: Vec<Vec<u8>>)
        ensures
            r@.len() == self.users().len(),
            forall|i: int| 0 <= i < r@.len() ==> #[trigger] r@[i]@ == self.users()[i].login,
    {
        let mut r: Vec<Vec<u8>> = Vec::new();
        let mut i: usize = 0;
        while i < self.users.len()
            invariant
                0 <= i <= self.users@.len(),
                r@.len() == i,
                forall|j: int| 0 <= j < i ==> #[trigger] r@[j]@ == self.users()[j].login,
            decreases self.users@.len() - i,
        {
            let l = &self.users[i].login;
            r.push(slice_to_vec(l.as_slice(), 0, l.len()));
            i = i + 1;
        }
        r
    }

    /// The first user that the challenge asks for: by password hash for type 1, by login
    /// hash for type 2, nobody for any other type.
    pub fn get_auth(&self, auth: &Challenge) -> (r: Option<usize>)
        ensures
            match r {
                Some(i) => first_match(self.users(), auth.auth_type, auth.lookup@) == Some(i as int),
                None => first_match(self.users(), auth.auth_type, auth.lookup@) is None,
            },
            r is Some ==> r->0 < self.users().len(),
    {
        if auth.auth_type != 1 && auth.auth_type != 2 {
            proof {
                lemma_no_match_from(self.users(), auth.auth_type, auth.lookup@, 0);
            }
            return None;
        }
        let mut i: usize = 0;
        while i < self.users.len()
            invariant
                0 <= i <= self.users@.len(),
                first_match(self.users(), auth.auth_type, auth.lookup@) == first_match_from(
                    self.users(),
                    auth.auth_type,
                    auth.lookup@,
                    i as int,
                ),
                auth.auth_type == 1 || auth.auth_type == 2,
            decreases self.users@.len() - i,
        {
            let u = &self.users[i];
            let hit = if auth.auth_type == 1 {
                bytes_eq(auth.lookup.as_slice(), u.password_hash.as_slice())
            } else {
                bytes_eq(auth.lookup.as_slice(), u.user_name_hash.as_slice())
            };
            assert(self.users()[i as int] == u@);
            if hit {
                return Some(i);
            }
            i = i + 1;
        }
        None
    }

    /// The restriction and the secret of user `i`.
    pub fn user_secret(&self, i: usize) -> (r: ([u8; 32], Option<[u8; 16]>))
        requires
            i < self.users().len(),
        ensures
            r.0@ == self.users()[i as int].secret,
            match r.1 {
                Some(ip) => self.users()[i as int].restricted_to_ip6 == Some(ip@),
                None => self.users()[i as int].restricted_to_ip6 is None,
            },
    {
        let u = &self.users[i];
        assert(self.users()[i as int] == u@);
        (u.secret, u.restricted_to_ip6)
    }
}

proof fn lemma_no_match_from(users: Seq<UserView>, t: u8, lookup: Seq<u8>, i: int)
    requires
        t != 1 && t != 2,
        0 <= i,
    ensures
        first_match_from(users, t, lookup, i) is None,
    decreases users.len() - i,
{
    if i < users.len() {
        lemma_no_match_from(users, t, lookup, i + 1);
    }
}

/// What is kept is a subsequence: each kept user stands in the list it was kept from.
proof fn lemma_kept_sub(users: Seq<UserView>, login: Option<Seq<u8>>)
    ensures
        users_kept(users, login).len() <= users.len(),
        forall|i: int|
            0 <= i < users_kept(users, login).len() ==> exists|j: int|
                0 <= j < users.len() && #[trigger] users_kept(users, login)[i] == users[j],
        forall|i: int, j: int|
            #![trigger users_kept(users, login)[i], users_kept(users, login)[j]]
            0 <= i < j < users_kept(users, login).len() ==> exists|a: int, b: int|
                0 <= a < b < users.len() && users_kept(users, login)[i] == #[trigger] users[a]
                    && users_kept(users, login)[j] == #[trigger] users[b],
    decreases users.len(),
{
    if users.len() > 0 {
        lemma_kept_sub(users.drop_last(), login);
        let rest = users_kept(users.drop_last(), login);
        assert forall|i: int|
            0 <= i < users_kept(users, login).len() implies exists|j: int|
                0 <= j < users.len() && #[trigger] users_kept(users, login)[i] == users[j] by {
            if i < rest.len() {
                let j = choose|j: int|
                    0 <= j < users.drop_last().len() && rest[i] == #[trigger] users.drop_last()[j];
                assert(users[j] == users.drop_last()[j]);
            } else {
                assert(users_kept(users, login)[i] == users[users.len() - 1]);
            }
        }
        assert forall|i: int, j: int|
            #![trigger users_kept(users, login)[i], users_kept(users, login)[j]]
            0 <= i < j < users_kept(users, login).len() implies exists|a: int, b: int|
                0 <= a < b < users.len() && users_kept(users, login)[i] == #[trigger] users[a]
                    && users_kept(users, login)[j] == #[trigger] users[b] by {
            let d = users.drop_last();
            if j < rest.len() {
                let (a, b) = choose|a: int, b: int|
                    0 <= a < b < d.len() && rest[i] == #[trigger] d[a] && rest[j] == #[trigger] d[b];
                assert(users[a] == d[a] && users[b] == d[b]);
            } else {
                let a = choose|a: int| 0 <= a < d.len() && #[trigger] rest[i] == d[a];
                assert(users[a] == d[a]);
                assert(users_kept(users, login)[j] == users[users.len() - 1]);
                assert(users_kept(users, login)[i] == users[a]);
            }
        }
    }
}

/// No two users whose logins were given share a login.
pub proof fn lemma_logins_unique(ca: CryptoAuth, i: int, j: int)
    requires
        ca.wf(),
        0 <= i < ca.users().len(),
        0 <= j < ca.users().len(),
        i != j,
        ca.users()[i].login_given,
        ca.users()[j].login_given,
    ensures
        ca.users()[i].login != ca.users()[j].login,
{
}

} // verus!
