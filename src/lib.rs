//! Package identity, memoized source-backed package resolution, and the
//! decision logic of publishing to a registry and of the registry's control
//! operations (yank, owners, search).

pub mod error;
pub mod lev;
pub mod network;
pub mod package;
pub mod registry;
pub mod search;

pub use error::CargoError;
pub use package::{
    DepKind, Dependency, Manifest, ManifestMetadata, Metadata, Package, PackageId, PackageSet,
    Source, SourceId, SourceKind, SourceMap, Summary, Target, TargetKind,
};
pub use registry::{OwnersOptions, RegistryConfig};
