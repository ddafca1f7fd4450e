//! Local persistence of the session bundle.
//!
//! A [`SessionStore`] models the one session file under the per-application
//! data directory. The directory root is injected at construction; the host
//! reads the file once at startup and hands its content in, and performs the
//! actual disk write or removal when asked, so all file traffic stays outside
//! the library while every decision about the content is made here.

use vstd::prelude::*;

use crate::codec::decode_bundle;
use crate::codec::encode_bundle;
use crate::codec::lemma_decode_encode;
use crate::codec::push_char;
use crate::codec::spec_decode;
use crate::codec::spec_encode;
use crate::data::is_passphrase;
use crate::data::is_passphrase_char;
use crate::data::BundleModel;
use crate::data::LoadError;
use crate::data::SessionBundle;

verus! {

/// Mathematical model of [`SessionStore`].
pub ghost struct StoreModel {
    pub root: Seq<char>,
    pub file: Option<Seq<char>>,
}

/// The session store: the resolved data-directory root, and the current
/// content of the session file (absent when no bundle is persisted).
pub struct SessionStore {
    root: String,
    file: Option<String>,
}

impl View for SessionStore {
    type V = StoreModel;

    closed spec fn view(&self) -> StoreModel {
        StoreModel {
            root: self.root@,
            file: match self.file {
                Some(ref c) => Some(c@),
                None => None,
            },
        }
    }
}

/// Where the session file lives under the data-directory root.
pub open spec fn spec_session_file_path(root: Seq<char>) -> Seq<char> {
    root + "/session"@
}

/// Where the encrypted message database lives under the data-directory root.
pub open spec fn spec_db_dir_path(root: Seq<char>) -> Seq<char> {
    root + "/db"@
}

/// What saving a bundle does to the store.
pub open spec fn spec_save(st: StoreModel, m: BundleModel) -> StoreModel {
    StoreModel { root: st.root, file: Some(spec_encode(m)) }
}

/// What deleting the stored session does to the store.
pub open spec fn spec_delete(st: StoreModel) -> StoreModel {
    StoreModel { root: st.root, file: None }
}

/// What loading returns: the decoded bundle, `NotFound` when no file is
/// present, `Corrupt` when a file is present but does not decode.
pub open spec fn spec_load(st: StoreModel) -> Result<BundleModel, LoadError> {
    match st.file {
        None => Err(LoadError::NotFound),
        Some(c) => match spec_decode(c) {
            Some(m) => Ok(m),
            None => Err(LoadError::Corrupt),
        },
    }
}

/// Relies on rand's `Alphanumeric` distribution: one sample is a byte drawn
/// uniformly from the ASCII letters and digits.
#[verifier::external_body]
fn sample_alphanumeric() -> (c: char)
    ensures
        is_passphrase_char(c),
{
    rand::RngExt::sample(&mut rand::rng(), rand::distr::Alphanumeric) as char
}

impl SessionStore {
    /// A store over the data-directory root `root`, holding whatever the host
    /// read from the session file at startup (`None` when the file is absent).
    pub fn new(root: String, disk: Option<String>) -> (s: Self)
        ensures
            s@.root == root@,
            s@.file == (match disk {
                Some(c) => Some(c@),
                None => None::<Seq<char>>,
            }),
    {
        SessionStore { root, file: disk }
    }

    /// The path of the session file.
    pub fn session_file_path(&self) -> (r: String)
        ensures
            r@ == spec_session_file_path(self@.root),
    {
        self.root.clone().concat("/session")
    }

    /// The path of the encrypted message database directory.
    pub fn db_dir_path(&self) -> (r: String)
        ensures
            r@ == spec_db_dir_path(self@.root),
    {
        self.root.clone().concat("/db")
    }

    /// A fresh storage passphrase: 32 characters drawn from letters and
    /// digits. It protects the at-rest message database and is distinct from
    /// the account password.
    pub fn generate_passphrase() -> (r: String)
        ensures
            is_passphrase(r@),
    {
        let mut out = String::new();
        let mut i: usize = 0;
        while i < 32
            invariant
                i <= 32,
                out@.len() == i,
                forall|j: int| 0 <= j < i ==> is_passphrase_char(#[trigger] out@[j]),
            decreases 32 - i,
        {
            let c = sample_alphanumeric();
            push_char(&mut out, c);
            i = i + 1;
        }
        out
    }

    /// Serializes `b` as the new content of the session file and returns that
    /// content, so the host can write it out. Overwrites whatever was stored.
    pub fn save(&mut self, b: &SessionBundle) -> (contents: String)
        requires
            b@.valid(),
        ensures
            final(self)@ == spec_save(old(self)@, b@),
            contents@ == spec_encode(b@),
    {
        let contents = encode_bundle(b);
        self.file = Some(contents.clone());
        contents
    }

    /// Reads the stored bundle back.
    pub fn load(&self) -> (r: Result<SessionBundle, LoadError>)
        ensures
            match spec_load(self@) {
                Ok(m) => match r {
                    Ok(b) => b@ == m,
                    Err(_) => false,
                },
                Err(e) => match r {
                    Ok(_) => false,
                    Err(e2) => e2 == e,
                },
            },
    {
        match &self.file {
            None => Err(LoadError::NotFound),
            Some(c) => match decode_bundle(c.as_str()) {
                Some(b) => Ok(b),
                None => Err(LoadError::Corrupt),
            },
        }
    }

    /// Forgets the stored session; the host removes the file and the database
    /// directory alongside.
    pub fn delete(&mut self)
        ensures
            final(self)@ == spec_delete(old(self)@),
    {
        self.file = None;
    }
}

/// Round trip: saving a valid bundle and loading it back returns that bundle.
pub proof fn lemma_save_then_load(st: StoreModel, m: BundleModel)
    requires
        m.valid(),
    ensures
        spec_load(spec_save(st, m)) == Ok::<BundleModel, LoadError>(m),
{
    lemma_decode_encode(m);
}

/// After a save followed by a delete, loading reports that no session file
/// exists.
pub proof fn lemma_save_delete_then_load(st: StoreModel, m: BundleModel)
    ensures
        spec_load(spec_delete(spec_save(st, m))) == Err::<BundleModel, LoadError>(
            LoadError::NotFound,
        ),
{
}

} // verus!
