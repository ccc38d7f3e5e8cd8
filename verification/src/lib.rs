//! A registry of non-fungible tokens.
//!
//! The registry records which party owns each token, lets the owner or one
//! approved operator hand a token on, and leaves every question of who has
//! signed what to an authorization oracle that the caller supplies.
//!
//! - [`party`]: the parties, and the handles of tokens.
//! - [`oracle`]: what the registry asks of an authorization oracle, and two
//!   oracles to begin with.
//! - [`model`]: the state of a registry as a mathematical value, with the
//!   result and the effect of every call.
//! - [`registry`]: the registry itself, each function with a contract over
//!   the model.
//! - [`laws`]: what follows for every registry, proved.
//! - [`error`]: why a call can be refused.
//! - [`greeting`]: a greeting, which has nothing to do with tokens.

pub mod error;
pub mod greeting;
pub mod laws;
pub mod model;
pub mod oracle;
pub mod party;
pub mod registry;

pub use error::RegistryError;
pub use greeting::Contract;
pub use model::{RegistryState, TokenState};
pub use oracle::{AllowAll, AuthorizationOracle, Signatories};
pub use party::{Party, TokenId};
pub use registry::{Registry, TokenRecord};
