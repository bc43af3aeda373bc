//! Package identifier specifications: partially specified locators for
//! packages, read from short text tokens and written back in one canonical
//! form.
//!
//! A token is a name with an optional version (`regex`, `regex@1.4`), or a
//! URL whose scheme may open with the kind of the source, whose query may
//! select a git reference and whose fragment may give a name and a version
//! (`git+ssh://host/repo.git?branch=dev#regex@1.4.3`).
//!
//! `package_id_spec` holds the type, its reading and its writing. `scheme`,
//! `fragment` and `render` hold the three decisions that reading and writing
//! rest on, `name`, `version`, `source_url` and `source_kind` the parts of a
//! specification, and `laws` what holds of all of them together.

pub mod error;
pub mod fragment;
pub mod laws;
pub mod name;
pub mod order;
pub mod package_id_spec;
pub mod render;
pub mod scheme;
pub mod source_kind;
pub mod source_url;
pub mod text;
pub mod version;

pub use crate::error::ParseError;
pub use crate::name::NameError;
pub use crate::package_id_spec::PackageId;
pub use crate::package_id_spec::PackageIdSpec;
pub use crate::package_id_spec::PathProbe;
pub use crate::package_id_spec::SourceId;
pub use crate::source_kind::GitReference;
pub use crate::source_kind::SourceKind;
pub use crate::source_url::SourceUrl;
pub use crate::version::PartialVersion;
pub use crate::version::Version;
pub use crate::version::VersionError;
