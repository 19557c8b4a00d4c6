//! Request-scoped identity for a request-processing pipeline.
//!
//! An interceptor resolves an opaque identity token into a user record,
//! installs it as the request's identity context, lets the wrapped service
//! read and change it through [`Identity`], and afterwards hands the final
//! context to the policy's commit. The interceptor is a state machine
//! ([`Stage`]): its driver performs each [`Action`] and reports the result
//! as the next [`Event`].

pub mod context;
pub mod error;
pub mod identity;
pub mod interceptor;
pub mod isolation;
pub mod trace;
pub mod usage;

pub use context::IdentityContext;
pub use error::{ErrorResponse, FailureCause, Outcome};
pub use identity::{Identity, RequestIdentity};
pub use interceptor::{Action, Event, Stage};
