//! The authentication state machine.
//!
//! The controller moves between "no session", "attempting sign-in",
//! "restoring a stored session" and "signed in". It owns the session store
//! and every decision, but performs no I/O itself: each step returns a list
//! of [`Action`]s for the host to carry out (render a screen, call the
//! messaging client, write or remove the session file), and the host reports
//! the outcome of the messaging-client calls back as one [`AuthEvent`].
//!
//! Failure policy, stated once: any failure of a fresh sign-in attempt
//! returns to credential entry with the submitted credentials intact —
//! including the password, so the user can correct one field and resubmit
//! without retyping. Failures while restoring a stored session return to an
//! empty credential entry; only a confirmed-invalid session (rejected or
//! corrupt) deletes the stored bundle, a transient network failure keeps it.

use vstd::prelude::*;

use crate::data::is_passphrase;
use crate::data::AuthError;
use crate::data::BundleModel;
use crate::data::Credentials;
use crate::data::CredentialsModel;
use crate::data::LoadError;
use crate::data::SessionBundle;
use crate::store::spec_db_dir_path;
use crate::store::spec_save;
use crate::store::spec_delete;
use crate::store::spec_load;
use crate::store::spec_session_file_path;
use crate::store::SessionStore;
use crate::store::StoreModel;
use crate::codec::spec_encode;
use crate::urlcheck::parse_homeserver_url;
use crate::urlcheck::parsed_url;

verus! {

/// How far a sign-in attempt has come.
#[derive(Clone, Copy, PartialEq, Eq, Structural, Debug)]
pub enum AttemptPhase {
    /// Waiting for the messaging client to be built.
    Building,
    /// Waiting for the login call.
    LoggingIn,
    /// Waiting for the initial synchronization.
    Syncing,
}

/// The controller's state.
#[derive(Debug, PartialEq, Eq)]
pub enum AuthState {
    /// No session; the credential entry form shows `prefill`, the input of
    /// the last failed attempt, so nothing has to be retyped.
    Unauthenticated { prefill: Option<Credentials> },
    /// One attempt in flight; at most one may be. The validated homeserver
    /// URL, the store path and the passphrase are fixed for the whole
    /// attempt and become the bundle when the attempt succeeds.
    Authenticating {
        credentials: Credentials,
        homeserver_url: String,
        db_path: String,
        passphrase: String,
        phase: AttemptPhase,
    },
    /// A stored bundle is being rebound against the messaging service.
    Restoring { bundle: SessionBundle },
    /// Signed in.
    Authenticated,
}

/// Mathematical model of [`AuthState`].
pub ghost enum StateModel {
    Unauthenticated { prefill: Option<CredentialsModel> },
    Authenticating {
        credentials: CredentialsModel,
        homeserver_url: Seq<char>,
        db_path: Seq<char>,
        passphrase: Seq<char>,
        phase: AttemptPhase,
    },
    Restoring { bundle: BundleModel },
    Authenticated,
}

impl View for AuthState {
    type V = StateModel;

    open spec fn view(&self) -> StateModel {
        match self {
            AuthState::Unauthenticated { prefill } => StateModel::Unauthenticated {
                prefill: match prefill {
                    Some(c) => Some(c@),
                    None => None,
                },
            },
            AuthState::Authenticating { credentials, homeserver_url, db_path, passphrase, phase } => StateModel::Authenticating {
                credentials: credentials@,
                homeserver_url: homeserver_url@,
                db_path: db_path@,
                passphrase: passphrase@,
                phase: *phase,
            },
            AuthState::Restoring { bundle } => StateModel::Restoring { bundle: bundle@ },
            AuthState::Authenticated => StateModel::Authenticated,
        }
    }
}

/// What the host must do next. Presenter requests (`Show*`) render a screen;
/// the rest are messaging-client or file-system requests whose outcome comes
/// back as an [`AuthEvent`].
#[derive(Debug, PartialEq, Eq)]
pub enum Action {
    /// Render the credential entry form, prefilled with the given input.
    ShowCredentialEntry { prefill: Option<Credentials>, error: Option<AuthError> },
    /// Render the attempt-in-progress screen.
    ShowAuthenticating,
    /// Render the room list.
    ShowRoomList { names: Vec<String> },
    /// Build a messaging client for a fresh attempt.
    Build { homeserver: String, db_path: String, passphrase: String },
    /// Build a messaging client bound to a stored session.
    BuildWithSession { homeserver: String, db_path: String, passphrase: String, session: String },
    /// Log in with the submitted account credentials.
    Login { username: String, password: String },
    /// Run the initial synchronization.
    Sync,
    /// Write `contents` to the session file at `path`.
    Persist { path: String, contents: String },
    /// Fetch the room names for display.
    ListRooms,
    /// Remove the session file and the message database directory.
    DeleteStoredData { session_file: String, db_dir: String },
    /// Tell the user that the session could not be persisted; the session
    /// itself stays usable for this run.
    SurfacePersistenceFailure,
}

/// Mathematical model of [`Action`].
pub ghost enum ActionModel {
    ShowCredentialEntry { prefill: Option<CredentialsModel>, error: Option<AuthError> },
    ShowAuthenticating,
    ShowRoomList { names: Seq<Seq<char>> },
    Build { homeserver: Seq<char>, db_path: Seq<char>, passphrase: Seq<char> },
    BuildWithSession {
        homeserver: Seq<char>,
        db_path: Seq<char>,
        passphrase: Seq<char>,
        session: Seq<char>,
    },
    Login { username: Seq<char>, password: Seq<char> },
    Sync,
    Persist { path: Seq<char>, contents: Seq<char> },
    ListRooms,
    DeleteStoredData { session_file: Seq<char>, db_dir: Seq<char> },
    SurfacePersistenceFailure,
}

impl View for Action {
    type V = ActionModel;

    open spec fn view(&self) -> ActionModel {
        match self {
            Action::ShowCredentialEntry { prefill, error } => ActionModel::ShowCredentialEntry {
                prefill: match prefill {
                    Some(c) => Some(c@),
                    None => None,
                },
                error: *error,
            },
            Action::ShowAuthenticating => ActionModel::ShowAuthenticating,
            Action::ShowRoomList { names } => ActionModel::ShowRoomList { names: names.deep_view() },
            Action::Build { homeserver, db_path, passphrase } => ActionModel::Build {
                homeserver: homeserver@,
                db_path: db_path@,
                passphrase: passphrase@,
            },
            Action::BuildWithSession { homeserver, db_path, passphrase, session } => ActionModel::BuildWithSession {
                homeserver: homeserver@,
                db_path: db_path@,
                passphrase: passphrase@,
                session: session@,
            },
            Action::Login { username, password } => ActionModel::Login {
                username: username@,
                password: password@,
            },
            Action::Sync => ActionModel::Sync,
            Action::Persist { path, contents } => ActionModel::Persist {
                path: path@,
                contents: contents@,
            },
            Action::ListRooms => ActionModel::ListRooms,
            Action::DeleteStoredData { session_file, db_dir } => ActionModel::DeleteStoredData {
                session_file: session_file@,
                db_dir: db_dir@,
            },
            Action::SurfacePersistenceFailure => ActionModel::SurfacePersistenceFailure,
        }
    }
}

impl DeepView for Action {
    type V = ActionModel;

    open spec fn deep_view(&self) -> ActionModel {
        self.view()
    }
}

/// What the host reports back about an action's outcome.
#[derive(Debug)]
pub enum AuthEvent {
    /// The messaging client for a fresh attempt was built.
    BuildSucceeded,
    /// The messaging client could not be built (transport failure).
    BuildFailed,
    /// The service accepted the credentials.
    LoginSucceeded,
    /// The service refused the credentials.
    LoginRejected,
    /// The login call failed before the service could answer.
    LoginFailed,
    /// The initial synchronization finished; `session` is the opaque session
    /// token the client hands out for later restoration, `sync_token` the
    /// cursor of the finished sync, if the client reported one.
    SyncSucceeded { session: String, sync_token: Option<String> },
    /// The initial synchronization failed.
    SyncFailed,
    /// The session file could not be written.
    PersistFailed,
    /// The stored session was rebound successfully.
    RestoreSucceeded,
    /// The service or the local store rejected the stored session: it is
    /// permanently invalid.
    RestoreRejected,
    /// Restoration failed for a transient reason; the stored session may
    /// still be good.
    RestoreNetworkFailed,
    /// The room names, in display order; a room without a name is reported
    /// as absent.
    RoomsListed { names: Vec<Option<String>> },
}

/// Mathematical model of [`AuthEvent`].
pub ghost enum EventModel {
    BuildSucceeded,
    BuildFailed,
    LoginSucceeded,
    LoginRejected,
    LoginFailed,
    SyncSucceeded { session: Seq<char>, sync_token: Option<Seq<char>> },
    SyncFailed,
    PersistFailed,
    RestoreSucceeded,
    RestoreRejected,
    RestoreNetworkFailed,
    RoomsListed { names: Seq<Option<Seq<char>>> },
}

impl View for AuthEvent {
    type V = EventModel;

    open spec fn view(&self) -> EventModel {
        match self {
            AuthEvent::BuildSucceeded => EventModel::BuildSucceeded,
            AuthEvent::BuildFailed => EventModel::BuildFailed,
            AuthEvent::LoginSucceeded => EventModel::LoginSucceeded,
            AuthEvent::LoginRejected => EventModel::LoginRejected,
            AuthEvent::LoginFailed => EventModel::LoginFailed,
            AuthEvent::SyncSucceeded { session, sync_token } => EventModel::SyncSucceeded {
                session: session@,
                sync_token: match sync_token {
                    Some(t) => Some(t@),
                    None => None,
                },
            },
            AuthEvent::SyncFailed => EventModel::SyncFailed,
            AuthEvent::PersistFailed => EventModel::PersistFailed,
            AuthEvent::RestoreSucceeded => EventModel::RestoreSucceeded,
            AuthEvent::RestoreRejected => EventModel::RestoreRejected,
            AuthEvent::RestoreNetworkFailed => EventModel::RestoreNetworkFailed,
            AuthEvent::RoomsListed { names } => EventModel::RoomsListed { names: names.deep_view() },
        }
    }
}

/// Mathematical model of [`AuthController`]: its state and its store.
pub ghost struct CtrlModel {
    pub state: StateModel,
    pub store: StoreModel,
}

/// The room names that are shown: the present ones, in their given order.
pub open spec fn present_names(s: Seq<Option<Seq<char>>>) -> Seq<Seq<char>>
    decreases s.len(),
{
    if s.len() == 0 {
        Seq::empty()
    } else {
        match s[0] {
            Some(n) => seq![n] + present_names(s.skip(1)),
            None => present_names(s.skip(1)),
        }
    }
}

/// The bundle a successful attempt persists: the attempt's validated URL,
/// store path and passphrase, and the session token and sync cursor the
/// client reported.
pub open spec fn attempt_bundle(
    homeserver_url: Seq<char>,
    db_path: Seq<char>,
    passphrase: Seq<char>,
    session: Seq<char>,
    sync_token: Option<Seq<char>>,
) -> BundleModel {
    BundleModel {
        homeserver: homeserver_url,
        db_path: db_path,
        db_passphrase: passphrase,
        session: session,
        sync_token: sync_token,
    }
}

/// A failed fresh attempt: back to credential entry with the submitted
/// credentials intact.
pub open spec fn spec_fail_attempt(m: CtrlModel, c: CredentialsModel, e: AuthError) -> (
    CtrlModel,
    Seq<ActionModel>,
) {
    (
        CtrlModel { state: StateModel::Unauthenticated { prefill: Some(c) }, store: m.store },
        seq![ActionModel::ShowCredentialEntry { prefill: Some(c), error: Some(e) }],
    )
}

/// What submitting credentials does, given the passphrase `pp` generated for
/// the attempt. A submission while an attempt is in flight is ignored; a
/// homeserver URL that does not parse fails at once, with no network call
/// and no messaging-client request; otherwise the attempt starts with a
/// build request against the validated URL.
pub open spec fn spec_submit(m: CtrlModel, c: CredentialsModel, pp: Seq<char>) -> (
    CtrlModel,
    Seq<ActionModel>,
) {
    if m.state is Authenticating {
        (m, Seq::empty())
    } else {
        match parsed_url(c.homeserver) {
            None => spec_fail_attempt(m, c, AuthError::InvalidInput),
            Some(u) => (
                CtrlModel {
                    state: StateModel::Authenticating {
                        credentials: c,
                        homeserver_url: u,
                        db_path: spec_db_dir_path(m.store.root),
                        passphrase: pp,
                        phase: AttemptPhase::Building,
                    },
                    store: m.store,
                },
                seq![
                    ActionModel::ShowAuthenticating,
                    ActionModel::Build {
                        homeserver: u,
                        db_path: spec_db_dir_path(m.store.root),
                        passphrase: pp,
                    },
                ],
            ),
        }
    }
}

/// What beginning restoration of a stored bundle does: a build request bound
/// to the bundle's path, passphrase and session.
pub open spec fn spec_restore(m: CtrlModel, b: BundleModel) -> (CtrlModel, Seq<ActionModel>) {
    (
        CtrlModel { state: StateModel::Restoring { bundle: b }, store: m.store },
        seq![
            ActionModel::BuildWithSession {
                homeserver: b.homeserver,
                db_path: b.db_path,
                passphrase: b.db_passphrase,
                session: b.session,
            },
        ],
    )
}

/// What startup does: load the stored bundle and begin restoring it; fall to
/// an empty credential entry when there is none, deleting the stored data
/// first when the file is corrupt.
pub open spec fn spec_start(m: CtrlModel) -> (CtrlModel, Seq<ActionModel>) {
    match spec_load(m.store) {
        Ok(b) => spec_restore(m, b),
        Err(LoadError::NotFound) => (
            CtrlModel { state: StateModel::Unauthenticated { prefill: None }, store: m.store },
            seq![ActionModel::ShowCredentialEntry { prefill: None, error: None }],
        ),
        Err(LoadError::Corrupt) => (
            CtrlModel {
                state: StateModel::Unauthenticated { prefill: None },
                store: spec_delete(m.store),
            },
            seq![
                ActionModel::DeleteStoredData {
                    session_file: spec_session_file_path(m.store.root),
                    db_dir: spec_db_dir_path(m.store.root),
                },
                ActionModel::ShowCredentialEntry { prefill: None, error: None },
            ],
        ),
    }
}

/// The transition for one reported event. Events that do not belong to the
/// current state are ignored. The one transition that touches the store is a
/// successful attempt: the bundle is saved, and the persist request stands
/// before the room-list request, so the session is durable before the
/// signed-in screen is ever requested. A reported session token that could
/// never be restored — empty, or holding raw control characters — makes no
/// valid bundle; such an attempt fails like a transport failure instead of
/// persisting a bundle that the next startup would only reject.
pub open spec fn spec_step(m: CtrlModel, e: EventModel) -> (CtrlModel, Seq<ActionModel>) {
    match m.state {
        StateModel::Authenticating { credentials: c, homeserver_url: u, db_path: dbp, passphrase: pp, phase } => match e {
            EventModel::BuildSucceeded => if phase == AttemptPhase::Building {
                (
                    CtrlModel {
                        state: StateModel::Authenticating {
                            credentials: c,
                            homeserver_url: u,
                            db_path: dbp,
                            passphrase: pp,
                            phase: AttemptPhase::LoggingIn,
                        },
                        store: m.store,
                    },
                    seq![ActionModel::Login { username: c.username, password: c.password }],
                )
            } else {
                (m, Seq::empty())
            },
            EventModel::BuildFailed => if phase == AttemptPhase::Building {
                spec_fail_attempt(m, c, AuthError::NetworkError)
            } else {
                (m, Seq::empty())
            },
            EventModel::LoginSucceeded => if phase == AttemptPhase::LoggingIn {
                (
                    CtrlModel {
                        state: StateModel::Authenticating {
                            credentials: c,
                            homeserver_url: u,
                            db_path: dbp,
                            passphrase: pp,
                            phase: AttemptPhase::Syncing,
                        },
                        store: m.store,
                    },
                    seq![ActionModel::Sync],
                )
            } else {
                (m, Seq::empty())
            },
            EventModel::LoginRejected => if phase == AttemptPhase::LoggingIn {
                spec_fail_attempt(m, c, AuthError::AuthRejected)
            } else {
                (m, Seq::empty())
            },
            EventModel::LoginFailed => if phase == AttemptPhase::LoggingIn {
                spec_fail_attempt(m, c, AuthError::NetworkError)
            } else {
                (m, Seq::empty())
            },
            EventModel::SyncSucceeded { session, sync_token } => if phase == AttemptPhase::Syncing {
                {
                    let b = attempt_bundle(u, dbp, pp, session, sync_token);
                    if b.valid() {
                        (
                            CtrlModel { state: StateModel::Authenticated, store: spec_save(m.store, b) },
                            seq![
                                ActionModel::Persist {
                                    path: spec_session_file_path(m.store.root),
                                    contents: spec_encode(b),
                                },
                                ActionModel::ListRooms,
                            ],
                        )
                    } else {
                        spec_fail_attempt(m, c, AuthError::NetworkError)
                    }
                }
            } else {
                (m, Seq::empty())
            },
            EventModel::SyncFailed => if phase == AttemptPhase::Syncing {
                spec_fail_attempt(m, c, AuthError::NetworkError)
            } else {
                (m, Seq::empty())
            },
            _ => (m, Seq::empty()),
        },
        StateModel::Restoring { bundle } => match e {
            EventModel::RestoreSucceeded => (
                CtrlModel { state: StateModel::Authenticated, store: m.store },
                seq![ActionModel::ListRooms],
            ),
            EventModel::RestoreRejected => (
                CtrlModel {
                    state: StateModel::Unauthenticated { prefill: None },
                    store: spec_delete(m.store),
                },
                seq![
                    ActionModel::DeleteStoredData {
                        session_file: spec_session_file_path(m.store.root),
                        db_dir: spec_db_dir_path(m.store.root),
                    },
                    ActionModel::ShowCredentialEntry { prefill: None, error: None },
                ],
            ),
            EventModel::RestoreNetworkFailed => (
                CtrlModel { state: StateModel::Unauthenticated { prefill: None }, store: m.store },
                seq![ActionModel::ShowCredentialEntry { prefill: None, error: None }],
            ),
            _ => (m, Seq::empty()),
        },
        StateModel::Authenticated => match e {
            EventModel::RoomsListed { names } => (
                m,
                seq![ActionModel::ShowRoomList { names: present_names(names) }],
            ),
            EventModel::PersistFailed => (m, seq![ActionModel::SurfacePersistenceFailure]),
            _ => (m, Seq::empty()),
        },
        StateModel::Unauthenticated { .. } => (m, Seq::empty()),
    }
}

proof fn lemma_present_names_step(s: Seq<Option<Seq<char>>>, i: int)
    requires
        0 <= i < s.len(),
    ensures
        present_names(s.skip(i)) == (match s[i] {
            Some(n) => seq![n] + present_names(s.skip(i + 1)),
            None => present_names(s.skip(i + 1)),
        }),
{
    assert(s.skip(i)[0] == s[i]);
    assert(s.skip(i).skip(1) =~= s.skip(i + 1));
}

/// The room names that are shown: the present ones, in their given order.
pub fn visible_room_names(names: &Vec<Option<String>>) -> (r: Vec<String>)
    ensures
        r.deep_view() == present_names(names.deep_view()),
{
    let ghost dv = names.deep_view();
    let mut out: Vec<String> = Vec::new();
    let mut i: usize = 0;
    proof {
        assert(dv.skip(0) =~= dv);
        assert(out.deep_view() + present_names(dv) =~= present_names(dv));
    }
    while i < names.len()
        invariant
            i <= names.len(),
            dv == names.deep_view(),
            dv.len() == names@.len(),
            present_names(dv) == out.deep_view() + present_names(dv.skip(i as int)),
        decreases names.len() - i,
    {
        proof {
            lemma_present_names_step(dv, i as int);
        }
        let ghost out_old = out.deep_view();
        match &names[i] {
            Some(n) => {
                out.push(n.clone());
                proof {
                    assert(out.deep_view() =~= out_old.push(dv[i as int]->0));
                    assert(out_old.push(dv[i as int]->0) + present_names(dv.skip(i as int + 1))
                        =~= out_old + (seq![dv[i as int]->0] + present_names(
                        dv.skip(i as int + 1),
                    )));
                }
            },
            None => {},
        }
        i = i + 1;
    }
    proof {
        assert(dv.skip(names@.len() as int).len() == 0);
        assert(out.deep_view() + present_names(dv.skip(names@.len() as int)) =~= out.deep_view());
    }
    out
}

/// The authentication controller: the current state and the session store it
/// drives.
pub struct AuthController {
    state: AuthState,
    store: SessionStore,
}

impl View for AuthController {
    type V = CtrlModel;

    closed spec fn view(&self) -> CtrlModel {
        CtrlModel { state: self.state@, store: self.store@ }
    }
}

impl AuthController {
    /// A controller over `store`, in the cold-start state: no session and an
    /// empty credential entry form.
    pub fn new(store: SessionStore) -> (c: Self)
        ensures
            c@.state == (StateModel::Unauthenticated { prefill: None::<CredentialsModel> }),
            c@.store == store@,
    {
        AuthController { state: AuthState::Unauthenticated { prefill: None }, store }
    }

    /// The current state, for inspection.
    pub fn current_state(&self) -> (r: &AuthState)
        ensures
            r@ == self@.state,
    {
        &self.state
    }

    /// The session store, for inspection.
    pub fn session_store(&self) -> (r: &SessionStore)
        ensures
            r@ == self@.store,
    {
        &self.store
    }

    /// Begins restoring a stored bundle: a build request bound to the
    /// bundle's stored path, passphrase and session.
    pub fn restore(&mut self, bundle: SessionBundle) -> (acts: Vec<Action>)
        ensures
            final(self)@ == spec_restore(old(self)@, bundle@).0,
            acts.deep_view() == spec_restore(old(self)@, bundle@).1,
    {
        let mut acts: Vec<Action> = Vec::new();
        acts.push(
            Action::BuildWithSession {
                homeserver: bundle.homeserver.clone(),
                db_path: bundle.db_path.clone(),
                passphrase: bundle.db_passphrase.clone(),
                session: bundle.session.clone(),
            },
        );
        self.state = AuthState::Restoring { bundle };
        proof {
            assert(acts.deep_view() =~= spec_restore(old(self)@, bundle@).1);
        }
        acts
    }

    /// Startup: load the stored bundle and begin restoring it; fall to an
    /// empty credential entry when there is none, deleting the stored data
    /// first when the file is corrupt.
    pub fn start(&mut self) -> (acts: Vec<Action>)
        ensures
            final(self)@ == spec_start(old(self)@).0,
            acts.deep_view() == spec_start(old(self)@).1,
    {
        match self.store.load() {
            Ok(b) => self.restore(b),
            Err(LoadError::NotFound) => {
                self.state = AuthState::Unauthenticated { prefill: None };
                let mut acts: Vec<Action> = Vec::new();
                acts.push(Action::ShowCredentialEntry { prefill: None, error: None });
                proof {
                    assert(acts.deep_view() =~= spec_start(old(self)@).1);
                }
                acts
            },
            Err(LoadError::Corrupt) => {
                let session_file = self.store.session_file_path();
                let db_dir = self.store.db_dir_path();
                self.store.delete();
                self.state = AuthState::Unauthenticated { prefill: None };
                let mut acts: Vec<Action> = Vec::new();
                acts.push(Action::DeleteStoredData { session_file, db_dir });
                acts.push(Action::ShowCredentialEntry { prefill: None, error: None });
                proof {
                    assert(acts.deep_view() =~= spec_start(old(self)@).1);
                }
                acts
            },
        }
    }

    /// Submits credentials for a fresh sign-in attempt. Ignored while an
    /// attempt is in flight; otherwise the homeserver URL is validated first,
    /// and an unparsable URL fails at once — back to credential entry with
    /// the input preserved and no messaging-client request. A parsable URL
    /// starts the attempt with a freshly generated storage passphrase.
    pub fn submit(&mut self, creds: Credentials) -> (acts: Vec<Action>)
        ensures
            old(self)@.state is Authenticating ==> final(self)@ == old(self)@
                && acts.deep_view() == Seq::<ActionModel>::empty(),
            !(old(self)@.state is Authenticating) ==> exists|pp: Seq<char>|
                is_passphrase(pp) && final(self)@ == #[trigger] spec_submit(
                    old(self)@,
                    creds@,
                    pp,
                ).0 && acts.deep_view() == spec_submit(old(self)@, creds@, pp).1,
    {
        let already = match &self.state {
            AuthState::Authenticating { .. } => true,
            _ => false,
        };
        if already {
            let acts: Vec<Action> = Vec::new();
            proof {
                assert(acts.deep_view() =~= Seq::<ActionModel>::empty());
            }
            return acts;
        }
        let pp = SessionStore::generate_passphrase();
        match parse_homeserver_url(creds.homeserver.as_str()) {
            None => {
                let mut acts: Vec<Action> = Vec::new();
                acts.push(
                    Action::ShowCredentialEntry {
                        prefill: Some(creds.clone()),
                        error: Some(AuthError::InvalidInput),
                    },
                );
                self.state = AuthState::Unauthenticated { prefill: Some(creds) };
                proof {
                    assert(self@ == spec_submit(old(self)@, creds@, pp@).0);
                    assert(acts.deep_view() =~= spec_submit(old(self)@, creds@, pp@).1);
                }
                acts
            },
            Some(u) => {
                let db_path = self.store.db_dir_path();
                let mut acts: Vec<Action> = Vec::new();
                acts.push(Action::ShowAuthenticating);
                acts.push(
                    Action::Build {
                        homeserver: u.clone(),
                        db_path: db_path.clone(),
                        passphrase: pp.clone(),
                    },
                );
                self.state = AuthState::Authenticating {
                    credentials: creds,
                    homeserver_url: u,
                    db_path,
                    passphrase: pp,
                    phase: AttemptPhase::Building,
                };
                proof {
                    assert(self@ == spec_submit(old(self)@, creds@, self@.state->Authenticating_passphrase).0);
                    assert(acts.deep_view() =~= spec_submit(
                        old(self)@,
                        creds@,
                        self@.state->Authenticating_passphrase,
                    ).1);
                }
                acts
            },
        }
    }

    /// Applies one reported outcome. Events that do not belong to the
    /// current state are ignored.
    pub fn handle_event(&mut self, e: AuthEvent) -> (acts: Vec<Action>)
        ensures
            final(self)@ == spec_step(old(self)@, e@).0,
            acts.deep_view() == spec_step(old(self)@, e@).1,
    {
        let (next, acts): (Option<AuthState>, Vec<Action>) = match &self.state {
            AuthState::Authenticating { credentials, homeserver_url, db_path, passphrase, phase } => {
                let ph = *phase;
                match e {
                    AuthEvent::BuildSucceeded => {
                        if ph == AttemptPhase::Building {
                            let ns = AuthState::Authenticating {
                                credentials: credentials.clone(),
                                homeserver_url: homeserver_url.clone(),
                                db_path: db_path.clone(),
                                passphrase: passphrase.clone(),
                                phase: AttemptPhase::LoggingIn,
                            };
                            let mut a: Vec<Action> = Vec::new();
                            a.push(
                                Action::Login {
                                    username: credentials.username.clone(),
                                    password: credentials.password.clone(),
                                },
                            );
                            (Some(ns), a)
                        } else {
                            (None, Vec::new())
                        }
                    },
                    AuthEvent::BuildFailed => {
                        if ph == AttemptPhase::Building {
                            let mut a: Vec<Action> = Vec::new();
                            a.push(
                                Action::ShowCredentialEntry {
                                    prefill: Some(credentials.clone()),
                                    error: Some(AuthError::NetworkError),
                                },
                            );
                            (
                                Some(
                                    AuthState::Unauthenticated {
                                        prefill: Some(credentials.clone()),
                                    },
                                ),
                                a,
                            )
                        } else {
                            (None, Vec::new())
                        }
                    },
                    AuthEvent::LoginSucceeded => {
                        if ph == AttemptPhase::LoggingIn {
                            let ns = AuthState::Authenticating {
                                credentials: credentials.clone(),
                                homeserver_url: homeserver_url.clone(),
                                db_path: db_path.clone(),
                                passphrase: passphrase.clone(),
                                phase: AttemptPhase::Syncing,
                            };
                            let mut a: Vec<Action> = Vec::new();
                            a.push(Action::Sync);
                            (Some(ns), a)
                        } else {
                            (None, Vec::new())
                        }
                    },
                    AuthEvent::LoginRejected => {
                        if ph == AttemptPhase::LoggingIn {
                            let mut a: Vec<Action> = Vec::new();
                            a.push(
                                Action::ShowCredentialEntry {
                                    prefill: Some(credentials.clone()),
                                    error: Some(AuthError::AuthRejected),
                                },
                            );
                            (
                                Some(
                                    AuthState::Unauthenticated {
                                        prefill: Some(credentials.clone()),
                                    },
                                ),
                                a,
                            )
                        } else {
                            (None, Vec::new())
                        }
                    },
                    AuthEvent::LoginFailed => {
                        if ph == AttemptPhase::LoggingIn {
                            let mut a: Vec<Action> = Vec::new();
                            a.push(
                                Action::ShowCredentialEntry {
                                    prefill: Some(credentials.clone()),
                                    error: Some(AuthError::NetworkError),
                                },
                            );
                            (
                                Some(
                                    AuthState::Unauthenticated {
                                        prefill: Some(credentials.clone()),
                                    },
                                ),
                                a,
                            )
                        } else {
                            (None, Vec::new())
                        }
                    },
                    AuthEvent::SyncSucceeded { session, sync_token } => {
                        if ph == AttemptPhase::Syncing {
                            let b = SessionBundle {
                                homeserver: homeserver_url.clone(),
                                db_path: db_path.clone(),
                                db_passphrase: passphrase.clone(),
                                session,
                                sync_token,
                            };
                            if b.is_valid() {
                                let path = self.store.session_file_path();
                                let contents = self.store.save(&b);
                                let mut a: Vec<Action> = Vec::new();
                                a.push(Action::Persist { path, contents });
                                a.push(Action::ListRooms);
                                (Some(AuthState::Authenticated), a)
                            } else {
                                let mut a: Vec<Action> = Vec::new();
                                a.push(
                                    Action::ShowCredentialEntry {
                                        prefill: Some(credentials.clone()),
                                        error: Some(AuthError::NetworkError),
                                    },
                                );
                                (
                                    Some(
                                        AuthState::Unauthenticated {
                                            prefill: Some(credentials.clone()),
                                        },
                                    ),
                                    a,
                                )
                            }
                        } else {
                            (None, Vec::new())
                        }
                    },
                    AuthEvent::SyncFailed => {
                        if ph == AttemptPhase::Syncing {
                            let mut a: Vec<Action> = Vec::new();
                            a.push(
                                Action::ShowCredentialEntry {
                                    prefill: Some(credentials.clone()),
                                    error: Some(AuthError::NetworkError),
                                },
                            );
                            (
                                Some(
                                    AuthState::Unauthenticated {
                                        prefill: Some(credentials.clone()),
                                    },
                                ),
                                a,
                            )
                        } else {
                            (None, Vec::new())
                        }
                    },
                    _ => (None, Vec::new()),
                }
            },
            AuthState::Restoring { .. } => {
                match e {
                    AuthEvent::RestoreSucceeded => {
                        let mut a: Vec<Action> = Vec::new();
                        a.push(Action::ListRooms);
                        (Some(AuthState::Authenticated), a)
                    },
                    AuthEvent::RestoreRejected => {
                        let session_file = self.store.session_file_path();
                        let db_dir = self.store.db_dir_path();
                        self.store.delete();
                        let mut a: Vec<Action> = Vec::new();
                        a.push(Action::DeleteStoredData { session_file, db_dir });
                        a.push(Action::ShowCredentialEntry { prefill: None, error: None });
                        (Some(AuthState::Unauthenticated { prefill: None }), a)
                    },
                    AuthEvent::RestoreNetworkFailed => {
                        let mut a: Vec<Action> = Vec::new();
                        a.push(Action::ShowCredentialEntry { prefill: None, error: None });
                        (Some(AuthState::Unauthenticated { prefill: None }), a)
                    },
                    _ => (None, Vec::new()),
                }
            },
            AuthState::Authenticated => {
                match e {
                    AuthEvent::RoomsListed { names } => {
                        let shown = visible_room_names(&names);
                        let mut a: Vec<Action> = Vec::new();
                        a.push(Action::ShowRoomList { names: shown });
                        (None, a)
                    },
                    AuthEvent::PersistFailed => {
                        let mut a: Vec<Action> = Vec::new();
                        a.push(Action::SurfacePersistenceFailure);
                        (None, a)
                    },
                    _ => (None, Vec::new()),
                }
            },
            AuthState::Unauthenticated { .. } => (None, Vec::new()),
        };
        match next {
            Some(ns) => {
                self.state = ns;
            },
            None => {},
        }
        proof {
            assert(acts.deep_view() =~= spec_step(old(self)@, e@).1);
        }
        acts
    }
}

/// An unparsable homeserver URL fails the submission at once: back to
/// credential entry with the submitted credentials preserved, and the one
/// emitted action is the credential entry request — no build, login or sync
/// request, so no network call is attempted.
pub proof fn lemma_invalid_url_no_network(m: CtrlModel, c: CredentialsModel, pp: Seq<char>)
    requires
        !(m.state is Authenticating),
        parsed_url(c.homeserver) is None,
    ensures
        spec_submit(m, c, pp).0.state == (StateModel::Unauthenticated { prefill: Some(c) }),
        spec_submit(m, c, pp).0.store == m.store,
        spec_submit(m, c, pp).1 == seq![
            ActionModel::ShowCredentialEntry {
                prefill: Some(c),
                error: Some(AuthError::InvalidInput),
            },
        ],
{
}

/// A rejected login ends the attempt cleanly: back to credential entry with
/// the attempt's credentials as prefill, and a store untouched by the failed
/// attempt.
pub proof fn lemma_rejected_attempt_clean(m: CtrlModel)
    requires
        m.state matches StateModel::Authenticating { phase: AttemptPhase::LoggingIn, .. },
    ensures
        spec_step(m, EventModel::LoginRejected).0 == (CtrlModel {
            state: StateModel::Unauthenticated {
                prefill: Some(m.state->Authenticating_credentials),
            },
            store: m.store,
        }),
        spec_step(m, EventModel::LoginRejected).1 == seq![
            ActionModel::ShowCredentialEntry {
                prefill: Some(m.state->Authenticating_credentials),
                error: Some(AuthError::AuthRejected),
            },
        ],
{
}

/// Resubmission carries no residue: what a submission from credential entry
/// does is independent of the prefilled input an earlier failure left
/// behind, so resubmitting after a rejection behaves exactly like a fresh
/// submission.
pub proof fn lemma_resubmit_no_residue(
    p1: Option<CredentialsModel>,
    p2: Option<CredentialsModel>,
    st: StoreModel,
    c: CredentialsModel,
    pp: Seq<char>,
)
    ensures
        spec_submit(CtrlModel { state: StateModel::Unauthenticated { prefill: p1 }, store: st }, c, pp)
            == spec_submit(
            CtrlModel { state: StateModel::Unauthenticated { prefill: p2 }, store: st },
            c,
            pp,
        ),
{
}

} // verus!
