//! Error taxonomy and boundary error translation for a contract that
//! loads its logic from dependency URIs.
//!
//! The crate defines two closed error enumerations: [`UriError`] for
//! failures while validating a dependency URI, and [`ContractError`],
//! the unifying error type of the contract, one variant of which embeds
//! a [`UriError`] together with the offending URI text. A single lossy
//! converter turns any [`ContractError`] into the host's generic error
//! at the boundary.

pub mod errors;
pub mod host;
pub mod json;
pub mod text;
pub mod uri;
pub mod uri_syntax;

pub use errors::ContractError;
pub use errors::UriError;
pub use uri::DependencyUri;
pub use uri::validate_dependency_uri;
