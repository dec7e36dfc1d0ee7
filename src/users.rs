use argon2::PasswordVerifier;
use vstd::prelude::*;

verus! {

/// The hash that a password is compared against when the username is unknown,
/// so that an unknown name costs as much time as a known one.
pub const FALLBACK_PASSWORD_HASH: &'static str = "$argon2id$v=19$m=15000,t=2,p=1$gZiV/M1gPc22ElAH/Jh1Hw$CWOrkoo7oJBQ/iyh7uJ0LO2aLEfrHwTWllSAxT0zRno";

/// Whether `password` verifies against the PHC-format password hash `hash`.
pub uninterp spec fn password_matches(password: Seq<char>, hash: Seq<char>) -> bool;

/// Relies on argon2's `PasswordHash::new` and `PasswordVerifier::verify_password`:
/// the algorithm, parameters and salt are read from the hash string, so the
/// outcome depends on the password and the hash alone.
#[verifier::external_body]
pub(crate) fn verify_password_hash(password: &String, hash: &String) -> (r: bool)
    ensures
        r == password_matches(password@, hash@),
{
    match argon2::PasswordHash::new(hash.as_str()) {
        Ok(parsed) => argon2::Argon2::default().verify_password(password.as_bytes(), &parsed).is_ok(),
        Err(_) => false,
    }
}

/// Why a login attempt was refused.
#[derive(Clone, Copy, Debug, PartialEq, Eq, Structural)]
pub enum AuthError {
    InvalidCredentials,
    UnexpectedError,
}

/// One account: its id, its (case-sensitive) username and its password hash.
#[derive(Clone, Debug)]
pub struct UserRecord {
    pub user_id: u64,
    pub username: String,
    pub password_hash: String,
}

/// The first record at or after `i` whose username is `name`.
pub open spec fn find_user_from(users: Seq<UserRecord>, name: Seq<char>, i: int) -> Option<UserRecord>
    decreases users.len() - i,
{
    if i < 0 || i >= users.len() {
        None
    } else if users[i].username@ == name {
        Some(users[i])
    } else {
        find_user_from(users, name, i + 1)
    }
}

pub open spec fn find_user(users: Seq<UserRecord>, name: Seq<char>) -> Option<UserRecord> {
    find_user_from(users, name, 0)
}

/// The first record at or after `i` whose id is `id`.
pub open spec fn find_id_from(users: Seq<UserRecord>, id: u64, i: int) -> Option<UserRecord>
    decreases users.len() - i,
{
    if i < 0 || i >= users.len() {
        None
    } else if users[i].user_id == id {
        Some(users[i])
    } else {
        find_id_from(users, id, i + 1)
    }
}

pub open spec fn find_id(users: Seq<UserRecord>, id: u64) -> Option<UserRecord> {
    find_id_from(users, id, 0)
}

/// The records with the password hash of user `id` replaced by `hash`.
pub open spec fn with_password_hash(users: Seq<UserRecord>, id: u64, hash: String) -> Seq<UserRecord> {
    Seq::new(
        users.len(),
        |k: int|
            if users[k].user_id == id {
                UserRecord { user_id: users[k].user_id, username: users[k].username, password_hash: hash }
            } else {
                users[k]
            },
    )
}

/// The hash that `authenticate` expects the password of `name` to match.
pub open spec fn expected_hash(users: Seq<UserRecord>, name: Seq<char>) -> Seq<char> {
    match find_user(users, name) {
        Some(u) => u.password_hash@,
        None => FALLBACK_PASSWORD_HASH@,
    }
}

/// What `authenticate` returns, given whether the password matched the expected hash.
pub open spec fn auth_result(users: Seq<UserRecord>, name: Seq<char>, password_verified: bool) -> Result<u64, AuthError> {
    match find_user(users, name) {
        Some(u) => if password_verified {
            Ok(u.user_id)
        } else {
            Err(AuthError::InvalidCredentials)
        },
        None => Err(AuthError::InvalidCredentials),
    }
}

proof fn lemma_not_found_from(users: Seq<UserRecord>, name: Seq<char>, id: u64, i: int, k: int)
    requires
        0 <= i <= k < users.len(),
        find_user_from(users, name, i) is None,
        find_id_from(users, id, i) is None,
    ensures
        users[k].username@ != name,
        users[k].user_id != id,
    decreases k - i,
{
    if i < k {
        lemma_not_found_from(users, name, id, i + 1, k);
    }
}

/// The store of accounts: usernames and user ids are unique.
pub struct CredentialStore {
    users: Vec<UserRecord>,
}

impl View for CredentialStore {
    type V = Seq<UserRecord>;

    closed spec fn view(&self) -> Seq<UserRecord> {
        self.users@
    }
}

impl CredentialStore {
    pub open spec fn wf(&self) -> bool {
        &&& forall|i: int, j: int|
            0 <= i < self@.len() && 0 <= j < self@.len() && i != j
                ==> #[trigger] self@[i].username@ != #[trigger] self@[j].username@
        &&& forall|i: int, j: int|
            0 <= i < self@.len() && 0 <= j < self@.len() && i != j
                ==> #[trigger] self@[i].user_id != #[trigger] self@[j].user_id
    }

    pub fn new() -> (r: CredentialStore)
        ensures
            r.wf(),
            r@ == Seq::<UserRecord>::empty(),
    {
        CredentialStore { users: Vec::new() }
    }

    /// Adds an account; refused (`false`, store unchanged) where the username or
    /// the id is already taken.
    pub fn add_user(&mut self, user_id: u64, username: String, password_hash: String) -> (r: bool)
        requires
            old(self).wf(),
        ensures
            final(self).wf(),
            r == (find_user(old(self)@, username@) is None && find_id(old(self)@, user_id) is None),
            r ==> final(self)@ == old(self)@.push(
                UserRecord { user_id, username, password_hash },
            ),
            !r ==> final(self)@ == old(self)@,
    {
        let by_name = self.index_of_username(&username);
        let by_id = self.index_of_id(user_id);
        if by_name.is_some() || by_id.is_some() {
            return false;
        }
        proof {
            self.lemma_absent(username@, user_id);
        }
        let ghost before = self@;
        self.users.push(UserRecord { user_id, username, password_hash });
        assert(self@ == before.push(UserRecord { user_id, username, password_hash }));
        true
    }

    proof fn lemma_absent(&self, name: Seq<char>, id: u64)
        requires
            find_user(self@, name) is None,
            find_id(self@, id) is None,
        ensures
            forall|k: int| 0 <= k < self@.len() ==> #[trigger] self@[k].username@ != name,
            forall|k: int| 0 <= k < self@.len() ==> #[trigger] self@[k].user_id != id,
    {
        assert forall|k: int| 0 <= k < self@.len() implies #[trigger] self@[k].username@ != name by {
            lemma_not_found_from(self@, name, id, 0, k);
        }
        assert forall|k: int| 0 <= k < self@.len() implies #[trigger] self@[k].user_id != id by {
            lemma_not_found_from(self@, name, id, 0, k);
        }
    }

    /// The hash that the supplied password must be checked against: the stored
    /// one, or `FALLBACK_PASSWORD_HASH` for an unknown username, so that the
    /// check is made either way.
    pub fn expected_password_hash(&self, username: &String) -> (r: String)
        ensures
            r@ == expected_hash(self@, username@),
    {
        match self.index_of_username(username) {
            Some(k) => self.users[k].password_hash.clone(),
            None => String::from_str(FALLBACK_PASSWORD_HASH),
        }
    }

    /// Decides a login attempt. `password_verified` is the outcome of checking
    /// the password against `expected_password_hash(username)`. An unknown
    /// username or a password that did not verify gives `InvalidCredentials`.
    pub fn authenticate(&self, username: &String, password_verified: bool) -> (r: Result<u64, AuthError>)
        ensures
            r == auth_result(self@, username@, password_verified),
    {
        match self.index_of_username(username) {
            Some(k) => if password_verified {
                Ok(self.users[k].user_id)
            } else {
                Err(AuthError::InvalidCredentials)
            },
            None => Err(AuthError::InvalidCredentials),
        }
    }

    /// The stored hash of user `id`, which a current password is checked against.
    pub fn stored_password_hash(&self, user_id: u64) -> (r: Option<String>)
        ensures
            match find_id(self@, user_id) {
                Some(u) => r == Some(u.password_hash),
                None => r is None,
            },
    {
        match self.index_of_id(user_id) {
            Some(k) => Some(self.users[k].password_hash.clone()),
            None => None,
        }
    }

    /// The username of user `id`.
    pub fn username_of(&self, user_id: u64) -> (r: Option<String>)
        ensures
            match find_id(self@, user_id) {
                Some(u) => r == Some(u.username),
                None => r is None,
            },
    {
        match self.index_of_id(user_id) {
            Some(k) => Some(self.users[k].username.clone()),
            None => None,
        }
    }

    /// Checks a username and password: the password is verified against
    /// `expected_password_hash(username)` (so an unknown username costs a
    /// full hash comparison too), then `authenticate` decides.
    pub fn validate_credentials(&self, username: &String, password: &String) -> (r: Result<u64, AuthError>)
        ensures
            r == auth_result(self@, username@, password_matches(password@, expected_hash(self@, username@))),
    {
        let verified = self.verify_password(username, password);
        self.authenticate(username, verified)
    }

    /// Whether `password` verifies against `expected_password_hash(username)`.
    pub fn verify_password(&self, username: &String, password: &String) -> (r: bool)
        ensures
            r == password_matches(password@, expected_hash(self@, username@)),
    {
        let expected = self.expected_password_hash(username);
        verify_password_hash(password, &expected)
    }

    /// Whether `password` verifies against the stored hash of user `id`;
    /// `false` where there is no such user.
    pub fn verify_current_password(&self, user_id: u64, password: &String) -> (r: bool)
        ensures
            r == match find_id(self@, user_id) {
                Some(u) => password_matches(password@, u.password_hash@),
                None => false,
            },
    {
        match self.index_of_id(user_id) {
            Some(k) => verify_password_hash(password, &self.users[k].password_hash),
            None => false,
        }
    }

    /// Whether user `id` exists.
    pub fn contains_user(&self, id: u64) -> (r: bool)
        ensures
            r == (find_id(self@, id) is Some),
    {
        self.index_of_id(id).is_some()
    }

    /// Replaces the password hash of user `id`; `false` (and nothing changed)
    /// where there is no such user.
    pub fn update_password_hash(&mut self, user_id: u64, new_hash: String) -> (r: bool)
        requires
            old(self).wf(),
        ensures
            final(self).wf(),
            r == (find_id(old(self)@, user_id) is Some),
            r ==> final(self)@ == with_password_hash(old(self)@, user_id, new_hash),
            !r ==> final(self)@ == old(self)@,
    {
        match self.index_of_id(user_id) {
            None => {
                false
            },
            Some(k) => {
                let ghost before = self@;
                let rec = UserRecord {
                    user_id,
                    username: self.users[k].username.clone(),
                    password_hash: new_hash,
                };
                self.users.set(k, rec);
                assert forall|j: int| 0 <= j < before.len() && j != k implies before[j].user_id != user_id by {
                    assert(before[j].user_id != before[k as int].user_id);
                }
                assert(self@ =~= with_password_hash(before, user_id, new_hash));
                true
            },
        }
    }

    /// Position of the record named `name`, searching from the front.
    fn index_of_username(&self, name: &String) -> (r: Option<usize>)
        ensures
            match r {
                Some(k) => k < self@.len() && find_user(self@, name@) == Some(self@[k as int]),
                None => find_user(self@, name@) is None,
            },
    {
        let mut i: usize = 0;
        while i < self.users.len()
            invariant
                i <= self.users@.len(),
                self@ == self.users@,
                find_user(self@, name@) == find_user_from(self@, name@, i as int),
            decreases self.users.len() - i,
        {
            if self.users[i].username == *name {
                return Some(i);
            }
            i = i + 1;
        }
        None
    }

    /// Position of the record of user `id`, searching from the front.
    fn index_of_id(&self, id: u64) -> (r: Option<usize>)
        ensures
            match r {
                Some(k) => k < self@.len() && self@[k as int].user_id == id
                    && find_id(self@, id) == Some(self@[k as int]),
                None => find_id(self@, id) is None,
            },
    {
        let mut i: usize = 0;
        while i < self.users.len()
            invariant
                i <= self.users@.len(),
                self@ == self.users@,
                find_id(self@, id) == find_id_from(self@, id, i as int),
            decreases self.users.len() - i,
        {
            if self.users[i].user_id == id {
                return Some(i);
            }
            i = i + 1;
        }
        None
    }
}

} // verus!
