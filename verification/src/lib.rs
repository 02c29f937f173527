//! Resolution of versioned asset identifiers, without any I/O.
//!
//! A virtual URL (`app:/...` or `res:/...`) names an asset of the current
//! release. This crate decides which remote documents have to be requested
//! to find the asset, reads them once the caller has fetched them, and names
//! the address at which the asset's bytes are served. It never touches the
//! network itself: every operation that needs a remote document hands back
//! the address to request and is resumed with the reply.
//!
//! Three things are left to outside code and named rather than defined
//! here: what the URL parser makes of a text ([`locator::url_parse`],
//! [`locator::url_join`]), how delimited text splits into records
//! ([`records::csv_records`]), and what a JSON document holds under a key
//! ([`manifest::json_member`]). Everything else is stated over those names
//! and proved.

pub mod binaries;
pub mod error;
pub mod index;
pub mod locator;
pub mod manifest;
pub mod records;
pub mod resources;
pub mod sde_client;
pub mod store;
pub mod version;

pub use binaries::Binaries;
pub use error::ResolveError;
pub use index::AssetIndex;
pub use locator::Locator;
pub use resources::Resources;
pub use sde_client::SdeClient;
pub use version::Version;
