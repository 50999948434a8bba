//! Utilities for project files written by FactoryTalk View Studio.
//!
//! Such a file is a compound container of named byte streams. The library
//! decodes the format version a file was written as, decides whether a file
//! is locked (password protected, or exported as "never restore"), and clears
//! that lock so that the file can be opened again.
//!
//! The operations work on a container that is open in memory. What they do
//! to it is stated over `container::objects`, the streams of the container
//! by path, and proved from the contracts of the few container calls in
//! `container`. Reading works on every container; clearing the protection
//! asks for an intact one, as `container::intact` says.

pub mod batch;
pub mod container;
pub mod error;
pub mod protection;
pub mod version;

pub use batch::{are_protected, get_versions, strip_protections};
pub use container::{new_container, put_stream, Container};
pub use error::{FTypeError, FtvFileError};
pub use protection::{is_protected, protection_verdict, strip_protection};
pub use version::{decode_version, get_version, version_from_read, FileVersion};
