//! Authentication and session-lifecycle core of a small chat client.
//!
//! The library owns the state that matters: the credential-submission state
//! machine, the session bundle that is persisted so the user can be signed in
//! again silently, and the codec for the session file. Rendering, input
//! devices and the wire protocol are external collaborators: the controller
//! emits intent (screen transitions, messaging-client requests) as plain
//! values and consumes the outcomes as plain events.

pub mod codec;
pub mod controller;
pub mod data;
pub mod store;
pub mod urlcheck;
