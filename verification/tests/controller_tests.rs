use chat_session::controller::Action;
use chat_session::controller::AuthController;
use chat_session::controller::AuthEvent;
use chat_session::controller::AuthState;
use chat_session::controller::visible_room_names;
use chat_session::data::AuthError;
use chat_session::data::Credentials;
use chat_session::data::LoadError;
use chat_session::data::SessionBundle;
use chat_session::store::SessionStore;

const ROOT: &str = "/data/app";
const PASSPHRASE: &str = "zz11YY22xx33WW44vv55UU66tt77SS88";

fn creds(homeserver: &str) -> Credentials {
    Credentials {
        homeserver: String::from(homeserver),
        username: String::from("alice"),
        password: String::from("secret"),
    }
}

fn fresh_controller() -> AuthController {
    AuthController::new(SessionStore::new(String::from(ROOT), None))
}

fn stored_bundle() -> SessionBundle {
    SessionBundle {
        homeserver: String::from("https://example.org/"),
        db_path: String::from("/data/app/db"),
        db_passphrase: String::from(PASSPHRASE),
        session: String::from("opaque-session-token"),
        sync_token: Some(String::from("cursor-1")),
    }
}

fn is_network_request(a: &Action) -> bool {
    matches!(
        a,
        Action::Build { .. }
            | Action::BuildWithSession { .. }
            | Action::Login { .. }
            | Action::Sync
            | Action::ListRooms
    )
}

/// Drives a fresh submission up to the point where the sync succeeded, and
/// returns the persisted file contents.
fn run_successful_attempt(ctrl: &mut AuthController) -> String {
    let acts = ctrl.submit(creds("https://example.org/"));
    assert_eq!(acts.len(), 2);
    assert_eq!(acts[0], Action::ShowAuthenticating);
    let attempt_passphrase = match &acts[1] {
        Action::Build { homeserver, db_path, passphrase } => {
            assert_eq!(homeserver, "https://example.org/");
            assert_eq!(db_path, "/data/app/db");
            assert_eq!(passphrase.chars().count(), 32);
            passphrase.clone()
        }
        other => panic!("expected a build request, got {:?}", other),
    };

    let acts = ctrl.handle_event(AuthEvent::BuildSucceeded);
    assert_eq!(
        acts,
        vec![Action::Login {
            username: String::from("alice"),
            password: String::from("secret"),
        }]
    );

    let acts = ctrl.handle_event(AuthEvent::LoginSucceeded);
    assert_eq!(acts, vec![Action::Sync]);

    let acts = ctrl.handle_event(AuthEvent::SyncSucceeded {
        session: String::from("opaque-session-token"),
        sync_token: Some(String::from("cursor-1")),
    });
    assert_eq!(acts.len(), 2);
    assert_eq!(acts[1], Action::ListRooms);
    match &acts[0] {
        Action::Persist { path, contents } => {
            assert_eq!(path, "/data/app/session");
            assert!(contents.contains(&attempt_passphrase));
            contents.clone()
        }
        other => panic!("expected a persist request, got {:?}", other),
    }
}

#[test]
fn scenario_unparsable_url_fails_without_network() {
    let mut ctrl = fresh_controller();
    let acts = ctrl.submit(creds("not a url"));
    assert_eq!(
        acts,
        vec![Action::ShowCredentialEntry {
            prefill: Some(creds("not a url")),
            error: Some(AuthError::InvalidInput),
        }]
    );
    assert!(acts.iter().all(|a| !is_network_request(a)));
    assert_eq!(
        *ctrl.current_state(),
        AuthState::Unauthenticated { prefill: Some(creds("not a url")) }
    );
}

#[test]
fn scenario_successful_sign_in_shows_rooms_and_persists() {
    let mut ctrl = fresh_controller();
    let persisted = run_successful_attempt(&mut ctrl);
    assert_eq!(*ctrl.current_state(), AuthState::Authenticated);

    let acts = ctrl.handle_event(AuthEvent::RoomsListed {
        names: vec![
            Some(String::from("General")),
            Some(String::from("Random")),
        ],
    });
    assert_eq!(
        acts,
        vec![Action::ShowRoomList {
            names: vec![String::from("General"), String::from("Random")],
        }]
    );

    // What the host wrote is what a later run loads: the bundle's homeserver
    // is the submitted URL.
    let next_run = SessionStore::new(String::from(ROOT), Some(persisted));
    let loaded = next_run.load().expect("the persisted bundle should load");
    assert_eq!(loaded.homeserver, "https://example.org/");
    assert_eq!(loaded.session, "opaque-session-token");
    assert_eq!(loaded.sync_token, Some(String::from("cursor-1")));
}

#[test]
fn scenario_rejected_login_returns_to_entry_with_input_intact() {
    let mut ctrl = fresh_controller();
    ctrl.submit(creds("https://example.org/"));
    ctrl.handle_event(AuthEvent::BuildSucceeded);
    let acts = ctrl.handle_event(AuthEvent::LoginRejected);
    assert_eq!(
        acts,
        vec![Action::ShowCredentialEntry {
            prefill: Some(creds("https://example.org/")),
            error: Some(AuthError::AuthRejected),
        }]
    );
    assert_eq!(
        *ctrl.current_state(),
        AuthState::Unauthenticated { prefill: Some(creds("https://example.org/")) }
    );
}

#[test]
fn resubmission_after_rejection_starts_clean() {
    let mut ctrl = fresh_controller();
    let first = ctrl.submit(creds("https://example.org/"));
    let first_passphrase = match &first[1] {
        Action::Build { passphrase, .. } => passphrase.clone(),
        other => panic!("expected a build request, got {:?}", other),
    };
    ctrl.handle_event(AuthEvent::BuildSucceeded);
    ctrl.handle_event(AuthEvent::LoginRejected);

    // Same credentials again: a fresh attempt, with a fresh passphrase.
    let acts = ctrl.submit(creds("https://example.org/"));
    assert_eq!(acts.len(), 2);
    assert_eq!(acts[0], Action::ShowAuthenticating);
    match &acts[1] {
        Action::Build { homeserver, db_path, passphrase } => {
            assert_eq!(homeserver, "https://example.org/");
            assert_eq!(db_path, "/data/app/db");
            assert_ne!(*passphrase, first_passphrase);
        }
        other => panic!("expected a build request, got {:?}", other),
    }
    // Nothing of the failed attempt was persisted.
    assert_eq!(ctrl.session_store().load(), Err(LoadError::NotFound));
}

#[test]
fn submit_while_attempt_in_flight_is_ignored() {
    let mut ctrl = fresh_controller();
    ctrl.submit(creds("https://example.org/"));
    let acts = ctrl.submit(creds("https://elsewhere.example.org/"));
    assert!(acts.is_empty());
    match ctrl.current_state() {
        AuthState::Authenticating { credentials, .. } => {
            assert_eq!(credentials.homeserver, "https://example.org/");
        }
        other => panic!("expected an attempt in flight, got {:?}", other),
    }
}

#[test]
fn url_is_normalized_by_parsing() {
    let mut ctrl = fresh_controller();
    let acts = ctrl.submit(creds("https://example.org"));
    match &acts[1] {
        Action::Build { homeserver, .. } => assert_eq!(homeserver, "https://example.org/"),
        other => panic!("expected a build request, got {:?}", other),
    }
}

#[test]
fn build_failure_preserves_credentials() {
    let mut ctrl = fresh_controller();
    ctrl.submit(creds("https://example.org/"));
    let acts = ctrl.handle_event(AuthEvent::BuildFailed);
    assert_eq!(
        acts,
        vec![Action::ShowCredentialEntry {
            prefill: Some(creds("https://example.org/")),
            error: Some(AuthError::NetworkError),
        }]
    );
}

#[test]
fn sync_failure_preserves_credentials() {
    let mut ctrl = fresh_controller();
    ctrl.submit(creds("https://example.org/"));
    ctrl.handle_event(AuthEvent::BuildSucceeded);
    ctrl.handle_event(AuthEvent::LoginSucceeded);
    let acts = ctrl.handle_event(AuthEvent::SyncFailed);
    assert_eq!(
        acts,
        vec![Action::ShowCredentialEntry {
            prefill: Some(creds("https://example.org/")),
            error: Some(AuthError::NetworkError),
        }]
    );
    assert_eq!(ctrl.session_store().load(), Err(LoadError::NotFound));
}

#[test]
fn startup_without_stored_session_shows_empty_entry() {
    let mut ctrl = fresh_controller();
    let acts = ctrl.start();
    assert_eq!(
        acts,
        vec![Action::ShowCredentialEntry { prefill: None, error: None }]
    );
    assert_eq!(*ctrl.current_state(), AuthState::Unauthenticated { prefill: None });
}

#[test]
fn startup_with_stored_session_restores_it() {
    let mut seed = SessionStore::new(String::from(ROOT), None);
    let contents = seed.save(&stored_bundle());
    let mut ctrl = AuthController::new(SessionStore::new(String::from(ROOT), Some(contents)));
    let acts = ctrl.start();
    assert_eq!(
        acts,
        vec![Action::BuildWithSession {
            homeserver: String::from("https://example.org/"),
            db_path: String::from("/data/app/db"),
            passphrase: String::from(PASSPHRASE),
            session: String::from("opaque-session-token"),
        }]
    );

    let acts = ctrl.handle_event(AuthEvent::RestoreSucceeded);
    assert_eq!(acts, vec![Action::ListRooms]);
    assert_eq!(*ctrl.current_state(), AuthState::Authenticated);
}

#[test]
fn rejected_restoration_deletes_the_bundle() {
    let mut seed = SessionStore::new(String::from(ROOT), None);
    let contents = seed.save(&stored_bundle());
    let mut ctrl = AuthController::new(SessionStore::new(String::from(ROOT), Some(contents)));
    ctrl.start();
    let acts = ctrl.handle_event(AuthEvent::RestoreRejected);
    assert_eq!(
        acts,
        vec![
            Action::DeleteStoredData {
                session_file: String::from("/data/app/session"),
                db_dir: String::from("/data/app/db"),
            },
            Action::ShowCredentialEntry { prefill: None, error: None },
        ]
    );
    assert_eq!(ctrl.session_store().load(), Err(LoadError::NotFound));
    assert_eq!(*ctrl.current_state(), AuthState::Unauthenticated { prefill: None });
}

#[test]
fn transient_restoration_failure_keeps_the_bundle() {
    let mut seed = SessionStore::new(String::from(ROOT), None);
    let contents = seed.save(&stored_bundle());
    let mut ctrl = AuthController::new(SessionStore::new(String::from(ROOT), Some(contents)));
    ctrl.start();
    let acts = ctrl.handle_event(AuthEvent::RestoreNetworkFailed);
    assert_eq!(
        acts,
        vec![Action::ShowCredentialEntry { prefill: None, error: None }]
    );
    assert_eq!(ctrl.session_store().load(), Ok(stored_bundle()));
}

#[test]
fn startup_with_corrupt_file_deletes_it() {
    let mut ctrl = AuthController::new(SessionStore::new(
        String::from(ROOT),
        Some(String::from("{\"homeserver\":")),
    ));
    let acts = ctrl.start();
    assert_eq!(
        acts,
        vec![
            Action::DeleteStoredData {
                session_file: String::from("/data/app/session"),
                db_dir: String::from("/data/app/db"),
            },
            Action::ShowCredentialEntry { prefill: None, error: None },
        ]
    );
    assert_eq!(ctrl.session_store().load(), Err(LoadError::NotFound));
}

#[test]
fn persistence_failure_is_surfaced_but_session_stays() {
    let mut ctrl = fresh_controller();
    run_successful_attempt(&mut ctrl);
    let acts = ctrl.handle_event(AuthEvent::PersistFailed);
    assert_eq!(acts, vec![Action::SurfacePersistenceFailure]);
    assert_eq!(*ctrl.current_state(), AuthState::Authenticated);
}

#[test]
fn sync_reporting_an_empty_session_token_fails_the_attempt() {
    let mut ctrl = fresh_controller();
    ctrl.submit(creds("https://example.org/"));
    ctrl.handle_event(AuthEvent::BuildSucceeded);
    ctrl.handle_event(AuthEvent::LoginSucceeded);
    // An empty token could never be restored, so nothing is persisted and
    // the attempt counts as failed.
    let acts = ctrl.handle_event(AuthEvent::SyncSucceeded {
        session: String::new(),
        sync_token: None,
    });
    assert_eq!(
        acts,
        vec![Action::ShowCredentialEntry {
            prefill: Some(creds("https://example.org/")),
            error: Some(AuthError::NetworkError),
        }]
    );
    assert_eq!(ctrl.session_store().load(), Err(LoadError::NotFound));
}

#[test]
fn nameless_rooms_are_not_shown() {
    let names = vec![
        Some(String::from("General")),
        None,
        Some(String::from("Random")),
        None,
    ];
    assert_eq!(
        visible_room_names(&names),
        vec![String::from("General"), String::from("Random")]
    );
}

#[test]
fn events_outside_their_state_are_ignored() {
    let mut ctrl = fresh_controller();
    let acts = ctrl.handle_event(AuthEvent::LoginSucceeded);
    assert!(acts.is_empty());
    assert_eq!(*ctrl.current_state(), AuthState::Unauthenticated { prefill: None });

    ctrl.submit(creds("https://example.org/"));
    let acts = ctrl.handle_event(AuthEvent::SyncSucceeded {
        session: String::from("tok"),
        sync_token: None,
    });
    assert!(acts.is_empty());
    match ctrl.current_state() {
        AuthState::Authenticating { .. } => {}
        other => panic!("the attempt should still be in flight, got {:?}", other),
    }
}
