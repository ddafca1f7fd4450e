use vstd::prelude::*;

verus! {

/// A character allowed in a storage passphrase: an ASCII letter or digit.
pub open spec fn is_passphrase_char(c: char) -> bool {
    ('a' <= c && c <= 'z') || ('A' <= c && c <= 'Z') || ('0' <= c && c <= '9')
}

/// A well-formed storage passphrase: exactly 32 alphanumeric characters.
pub open spec fn is_passphrase(s: Seq<char>) -> bool {
    &&& s.len() == 32
    &&& forall|i: int| 0 <= i < s.len() ==> is_passphrase_char(#[trigger] s[i])
}

/// Text that may stand inside a persisted bundle field: no raw control
/// characters, so every field can be written as a JSON string.
pub open spec fn text_ok(s: Seq<char>) -> bool {
    forall|i: int| 0 <= i < s.len() ==> #[trigger] s[i] >= ' '
}

/// What the user types into the credential entry form. Held only in memory
/// during a sign-in attempt, never persisted.
#[derive(Debug, PartialEq, Eq)]
pub struct Credentials {
    pub homeserver: String,
    pub username: String,
    pub password: String,
}

/// Mathematical model of [`Credentials`].
pub ghost struct CredentialsModel {
    pub homeserver: Seq<char>,
    pub username: Seq<char>,
    pub password: Seq<char>,
}

impl View for Credentials {
    type V = CredentialsModel;

    open spec fn view(&self) -> CredentialsModel {
        CredentialsModel {
            homeserver: self.homeserver@,
            username: self.username@,
            password: self.password@,
        }
    }
}


impl Clone for Credentials {
    fn clone(&self) -> (r: Self)
        ensures
            r@ == self@,
    {
        Credentials {
            homeserver: self.homeserver.clone(),
            username: self.username.clone(),
            password: self.password.clone(),
        }
    }
}

/// The one persisted record: everything needed to reauthenticate silently.
/// `session` is the opaque token issued by the messaging client, carried as
/// the text the client hands out; `sync_token` is absent until at least one
/// successful synchronization.
#[derive(Debug, PartialEq, Eq)]
pub struct SessionBundle {
    pub homeserver: String,
    pub db_path: String,
    pub db_passphrase: String,
    pub session: String,
    pub sync_token: Option<String>,
}

/// Mathematical model of [`SessionBundle`].
pub ghost struct BundleModel {
    pub homeserver: Seq<char>,
    pub db_path: Seq<char>,
    pub db_passphrase: Seq<char>,
    pub session: Seq<char>,
    pub sync_token: Option<Seq<char>>,
}

impl View for SessionBundle {
    type V = BundleModel;

    open spec fn view(&self) -> BundleModel {
        BundleModel {
            homeserver: self.homeserver@,
            db_path: self.db_path@,
            db_passphrase: self.db_passphrase@,
            session: self.session@,
            sync_token: match self.sync_token {
                Some(ref t) => Some(t@),
                None => None,
            },
        }
    }
}


impl BundleModel {
    /// Invariant of every bundle that is allowed to reach the disk: the
    /// homeserver URL and the session token are non-empty, the passphrase is
    /// exactly 32 alphanumeric characters, and no field holds a raw control
    /// character.
    pub open spec fn valid(self) -> bool {
        &&& self.homeserver.len() > 0
        &&& self.session.len() > 0
        &&& is_passphrase(self.db_passphrase)
        &&& text_ok(self.homeserver)
        &&& text_ok(self.db_path)
        &&& text_ok(self.session)
        &&& match self.sync_token {
            Some(t) => text_ok(t),
            None => true,
        }
    }
}

impl Clone for SessionBundle {
    fn clone(&self) -> (r: Self)
        ensures
            r@ == self@,
    {
        SessionBundle {
            homeserver: self.homeserver.clone(),
            db_path: self.db_path.clone(),
            db_passphrase: self.db_passphrase.clone(),
            session: self.session.clone(),
            sync_token: match &self.sync_token {
                Some(t) => Some(t.clone()),
                None => None,
            },
        }
    }
}

/// Why a sign-in attempt failed; rendered beside the credential entry form.
#[derive(Clone, Copy, PartialEq, Eq, Structural, Debug)]
pub enum AuthError {
    /// The homeserver URL did not parse; rejected before any network call.
    InvalidInput,
    /// The service refused the credentials.
    AuthRejected,
    /// Transport, build or synchronization failure.
    NetworkError,
    /// The session bundle could not be written to local storage.
    PersistenceError,
}

/// Why a stored session bundle could not be loaded.
#[derive(Clone, Copy, PartialEq, Eq, Structural, Debug)]
pub enum LoadError {
    /// No session file is present.
    NotFound,
    /// A session file is present but unparsable or missing required fields.
    Corrupt,
}

/// Does every character of `s` pass muster as bundle text?
pub fn check_text_ok(s: &str) -> (b: bool)
    ensures
        b == text_ok(s@),
{
    let n = s.unicode_len();
    let mut i: usize = 0;
    while i < n
        invariant
            0 <= i <= n,
            n == s@.len(),
            forall|j: int| 0 <= j < i ==> #[trigger] s@[j] >= ' ',
        decreases n - i,
    {
        if !(s.get_char(i) >= ' ') {
            return false;
        }
        i = i + 1;
    }
    true
}

/// Is `s` a well-formed storage passphrase?
pub fn check_passphrase(s: &str) -> (b: bool)
    ensures
        b == is_passphrase(s@),
{
    let n = s.unicode_len();
    if n != 32 {
        return false;
    }
    let mut i: usize = 0;
    while i < n
        invariant
            0 <= i <= n,
            n == s@.len(),
            forall|j: int| 0 <= j < i ==> is_passphrase_char(#[trigger] s@[j]),
        decreases n - i,
    {
        let c = s.get_char(i);
        if !(('a' <= c && c <= 'z') || ('A' <= c && c <= 'Z') || ('0' <= c && c <= '9')) {
            return false;
        }
        i = i + 1;
    }
    true
}

impl SessionBundle {
    /// Does this bundle satisfy the persistence invariant?
    pub fn is_valid(&self) -> (b: bool)
        ensures
            b == self@.valid(),
    {
        if self.homeserver.as_str().unicode_len() == 0 {
            return false;
        }
        if self.session.as_str().unicode_len() == 0 {
            return false;
        }
        if !check_passphrase(self.db_passphrase.as_str()) {
            return false;
        }
        if !check_text_ok(self.homeserver.as_str()) {
            return false;
        }
        if !check_text_ok(self.db_path.as_str()) {
            return false;
        }
        if !check_text_ok(self.session.as_str()) {
            return false;
        }
        match &self.sync_token {
            Some(t) => check_text_ok(t.as_str()),
            None => true,
        }
    }
}

} // verus!
