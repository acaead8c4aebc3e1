use vstd::prelude::*;

verus! {

/// Why an operation failed.
#[derive(Debug)]
pub enum CargoError {
    /// The identifier is not one of the package set's.
    PackageNotInSet,
    /// No source is registered under the identifier's source.
    SourceNotFound,
    /// The source failed to download the package, for the given reason.
    Download(String),
    /// The manifest marks the named package as not publishable.
    Unpublishable(String),
    /// The named path dependency has no explicit version requirement.
    PathDependencyWithoutVersion(String),
    /// The named dependency comes from the given source, not the target registry.
    ForeignSource(String, String),
    /// The declared license file is not on disk.
    LicenseFileMissing(String),
    /// A yank was asked for without a version.
    YankVersionMissing,
    /// The registry index is not a valid URL.
    InvalidIndexUrl(String),
    /// Network access is forbidden in the current mode.
    NetworkDisabled,
    /// The registry at the given index could not be updated.
    RegistryUpdate(String),
    /// The registry refused to add owners to the named crate, for the given reason.
    OwnersAdd(String, String),
    /// The registry refused to remove owners from the named crate, for the given reason.
    OwnersRemove(String, String),
    /// The registry could not list the owners of the named crate, for the given reason.
    OwnersList(String, String),
    /// The registry refused a yank, for the given reason.
    YankFailed(String),
    /// The registry refused to undo a yank, for the given reason.
    UnyankFailed(String),
    /// The registry could not run a search, for the given reason.
    SearchFailed(String),
    /// The registry refused the upload, for the given reason.
    Publish(String),
    /// No crate was named and no manifest was found to take its name from.
    ManifestNotFound,
}

pub open spec fn yank_version_missing_text() -> Seq<char> {
    "a version must be specified to yank"@
}

impl CargoError {
    /// A human-readable message for the error.
    pub fn message(&self) -> (r: String)
        ensures
            *self is YankVersionMissing ==> r@ == yank_version_missing_text(),
            *self is Unpublishable ==> r@ == "some crates cannot be published.\n`"@
                + self->Unpublishable_0@ + "` is marked as unpublishable"@,
            *self is PathDependencyWithoutVersion ==> r@
                == "all path dependencies must have a version specified when publishing.\ndependency `"@
                + self->PathDependencyWithoutVersion_0@ + "` does not specify a version"@,
            *self is ForeignSource ==> r@ == "all dependencies must come from the same source.\ndependency `"@
                + self->ForeignSource_0@ + "` comes from "@ + self->ForeignSource_1@ + " instead"@,
            *self is LicenseFileMissing ==> r@ == "the license file `"@ + self->LicenseFileMissing_0@
                + "` does not exist"@,
            *self is Download ==> r@ == "unable to get packages from source: "@ + self->Download_0@,
            *self is OwnersAdd ==> r@ == "failed to add owners to crate "@ + self->OwnersAdd_0@ + ": "@
                + self->OwnersAdd_1@,
            *self is OwnersRemove ==> r@ == "failed to remove owners from crate "@
                + self->OwnersRemove_0@ + ": "@ + self->OwnersRemove_1@,
            *self is OwnersList ==> r@ == "failed to list owners of crate "@ + self->OwnersList_0@
                + ": "@ + self->OwnersList_1@,
            *self is YankFailed ==> r@ == "failed to yank: "@ + self->YankFailed_0@,
            *self is UnyankFailed ==> r@ == "failed to undo a yank: "@ + self->UnyankFailed_0@,
            *self is SearchFailed ==> r@ == "failed to retrieve search results from the registry: "@
                + self->SearchFailed_0@,
            *self is RegistryUpdate ==> r@ == "failed to update registry "@ + self->RegistryUpdate_0@,
            *self is Publish ==> r@ == self->Publish_0@,
            *self is NetworkDisabled ==> r@
                == "attempting to make an HTTP request, but --frozen was specified"@,
    {
        match self {
            CargoError::PackageNotInSet => String::from_str("couldn't find the package in the package set"),
            CargoError::SourceNotFound => String::from_str("couldn't find a source for the package"),
            CargoError::Download(cause) => String::from_str("unable to get packages from source: ")
                .concat(cause.as_str()),
            CargoError::Unpublishable(name) => {
                let s = String::from_str("some crates cannot be published.\n`");
                let s = s.concat(name.as_str());
                s.concat("` is marked as unpublishable")
            },
            CargoError::PathDependencyWithoutVersion(name) => {
                let s = String::from_str(
                    "all path dependencies must have a version specified when publishing.\ndependency `",
                );
                let s = s.concat(name.as_str());
                s.concat("` does not specify a version")
            },
            CargoError::ForeignSource(name, source) => {
                let s = String::from_str(
                    "all dependencies must come from the same source.\ndependency `",
                );
                let s = s.concat(name.as_str());
                let s = s.concat("` comes from ");
                let s = s.concat(source.as_str());
                s.concat(" instead")
            },
            CargoError::LicenseFileMissing(file) => {
                let s = String::from_str("the license file `");
                let s = s.concat(file.as_str());
                s.concat("` does not exist")
            },
            CargoError::YankVersionMissing => String::from_str("a version must be specified to yank"),
            CargoError::InvalidIndexUrl(index) => {
                let s = String::from_str("invalid registry index url: ");
                s.concat(index.as_str())
            },
            CargoError::NetworkDisabled => String::from_str(
                "attempting to make an HTTP request, but --frozen was specified",
            ),
            CargoError::RegistryUpdate(index) => String::from_str("failed to update registry ")
                .concat(index.as_str()),
            CargoError::OwnersAdd(name, cause) => String::from_str("failed to add owners to crate ")
                .concat(name.as_str()).concat(": ").concat(cause.as_str()),
            CargoError::OwnersRemove(name, cause) => String::from_str(
                "failed to remove owners from crate ",
            ).concat(name.as_str()).concat(": ").concat(cause.as_str()),
            CargoError::OwnersList(name, cause) => String::from_str("failed to list owners of crate ")
                .concat(name.as_str()).concat(": ").concat(cause.as_str()),
            CargoError::YankFailed(cause) => String::from_str("failed to yank: ").concat(
                cause.as_str(),
            ),
            CargoError::UnyankFailed(cause) => String::from_str("failed to undo a yank: ").concat(
                cause.as_str(),
            ),
            CargoError::SearchFailed(cause) => String::from_str(
                "failed to retrieve search results from the registry: ",
            ).concat(cause.as_str()),
            CargoError::Publish(cause) => cause.clone(),
            CargoError::ManifestNotFound => String::from_str(
                "could not find a manifest in this directory or any parent directory",
            ),
        }
    }
}

} // verus!
