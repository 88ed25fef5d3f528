//! Error values of the library, one kind per failure the pipeline can hit,
//! each carrying the contextual detail its message embeds.

use vstd::prelude::*;

verus! {

/// Why a repository specifier could not be parsed.
#[derive(Clone, Copy, Debug, PartialEq, Eq, Structural)]
pub enum ParseError {
    /// The part before any tag did not split into exactly two non-empty
    /// segments.
    WrongSegmentCount,
    /// More than one tag delimiter was given.
    TooManyParts,
    /// A tag delimiter was given but the tag is blank.
    EmptyTag,
}

impl ParseError {
    /// The message shown for this parse failure.
    pub open spec fn spec_message(&self) -> Seq<char> {
        match self {
            ParseError::WrongSegmentCount => "Repo must have 2 parts e.g. owner/name"@,
            ParseError::TooManyParts => "Cannot define more than the repo and tag"@,
            ParseError::EmptyTag => "Tag cannot be empty"@,
        }
    }

    /// Renders the failure for the user.
    pub fn message(&self) -> (r: String)
        ensures
            r@ == self.spec_message(),
    {
        match self {
            ParseError::WrongSegmentCount => String::from_str("Repo must have 2 parts e.g. owner/name"),
            ParseError::TooManyParts => String::from_str("Cannot define more than the repo and tag"),
            ParseError::EmptyTag => String::from_str("Tag cannot be empty"),
        }
    }
}

/// Why an install run failed. Every variant carries the value its message
/// names.
#[derive(Clone, Debug, PartialEq, Eq)]
pub enum InstallError {
    /// The host platform is outside the supported families or systems.
    UnsupportedPlatform { detail: String },
    /// No tags exist, or the requested tag has no release.
    ReleaseNotFound { detail: String },
    /// The download failed: no content length, a chunk could not be read,
    /// or a chunk could not be written.
    Transfer { detail: String },
    /// The extraction utility failed on the named archive.
    Unpack { archive: String },
    /// No asset of the release yielded a runnable, architecture-matching
    /// file.
    NoExecutableFound { full_name: String },
    /// The symbolic link could not be created.
    Link { detail: String },
}

impl InstallError {
    /// The message shown for this install failure.
    pub open spec fn spec_message(&self) -> Seq<char> {
        match self {
            InstallError::UnsupportedPlatform { detail } => detail@,
            InstallError::ReleaseNotFound { detail } => detail@,
            InstallError::Transfer { detail } => detail@,
            InstallError::Unpack { archive } => "Failed to unzip: "@ + archive@,
            InstallError::NoExecutableFound { full_name } => "Failed to find a valid executable for '"@
                + full_name@ + "'"@,
            InstallError::Link { detail } => "Failed to create symlink - "@ + detail@,
        }
    }

    /// Renders the failure for the user.
    pub fn message(&self) -> (r: String)
        ensures
            r@ == self.spec_message(),
    {
        match self {
            InstallError::UnsupportedPlatform { detail } => detail.clone(),
            InstallError::ReleaseNotFound { detail } => detail.clone(),
            InstallError::Transfer { detail } => detail.clone(),
            InstallError::Unpack { archive } => String::from_str("Failed to unzip: ").concat(
                archive.as_str(),
            ),
            InstallError::NoExecutableFound { full_name } => {
                let r = String::from_str("Failed to find a valid executable for '").concat(
                    full_name.as_str(),
                ).concat("'");
                proof {
                    assert(r@ =~= "Failed to find a valid executable for '"@ + full_name@ + "'"@);
                }
                r
            },
            InstallError::Link { detail } => String::from_str("Failed to create symlink - ").concat(
                detail.as_str(),
            ),
        }
    }
}

} // verus!
