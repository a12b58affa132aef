use vstd::prelude::*;

verus! {

/// Why a command could not be produced. Every variant ends the current attempt.
#[derive(Debug, PartialEq, Eq)]
pub enum ResolveError {
    /// No asset of the release bears the expected name (which is carried).
    AssetNotFound(String),
    /// The release feed could not be queried.
    FeedUnavailable(String),
    /// The version directory (carried first) could not be created.
    DirectoryCreateFailed(String, String),
    /// The asset could not be downloaded.
    DownloadFailed(String),
    /// The downloaded archive could not be unpacked.
    DecompressFailed(String),
    /// The unpacked binary could not be marked executable.
    MakeExecutableFailed(String),
    /// Wrapper mode was requested but no wrapper script exists.
    WrapperNotFound,
    /// A wrapper script exists but the program that runs it (named) cannot be started.
    WrapperPrerequisiteMissing(String),
    /// No access token was configured in settings or the environment.
    MissingCredential,
    /// The settings supplied by the host could not be read.
    SettingsParseError(String),
}

pub open spec fn missing_credential_text() -> Seq<char> {
    "No GitHub token found. Please set `github_personal_access_token` in settings, set GITHUB_TOKEN/GITHUB_PERSONAL_ACCESS_TOKEN environment variable, or enable `use_wrapper_script` for automatic authentication. You can get a token with: gh auth token"@
}

pub open spec fn wrapper_not_found_text() -> Seq<char> {
    "Wrapper mode enabled but no wrapper script found in wrappers/ directory. Please disable wrapper mode or use traditional token configuration."@
}

impl ResolveError {
    /// The text shown to the user for this error.
    pub open spec fn spec_message(&self) -> Seq<char> {
        match self {
            ResolveError::AssetNotFound(n) => "no asset found matching \""@ + n@ + "\""@,
            ResolveError::FeedUnavailable(m) => "failed to fetch the latest release: "@ + m@,
            ResolveError::DirectoryCreateFailed(d, m) => "failed to create directory '"@ + d@
                + "': "@ + m@,
            ResolveError::DownloadFailed(m) => "failed to download file: "@ + m@,
            ResolveError::DecompressFailed(m) => "failed to unpack file: "@ + m@,
            ResolveError::MakeExecutableFailed(m) => "failed to make file executable: "@ + m@,
            ResolveError::WrapperNotFound => wrapper_not_found_text(),
            ResolveError::WrapperPrerequisiteMissing(d) => "Wrapper script found but "@ + d@
                + " not available. Please install "@ + d@ + " or disable wrapper mode."@,
            ResolveError::MissingCredential => missing_credential_text(),
            ResolveError::SettingsParseError(m) => "invalid settings: "@ + m@,
        }
    }

    /// The text shown to the user for this error.
    pub fn message(&self) -> (r: String)
        ensures
            r@ == self.spec_message(),
    {
        match self {
            ResolveError::AssetNotFound(n) => String::from_str("no asset found matching \"").concat(
                n.as_str(),
            ).concat("\""),
            ResolveError::FeedUnavailable(m) => String::from_str(
                "failed to fetch the latest release: ",
            ).concat(m.as_str()),
            ResolveError::DirectoryCreateFailed(d, m) => String::from_str(
                "failed to create directory '",
            ).concat(d.as_str()).concat("': ").concat(m.as_str()),
            ResolveError::DownloadFailed(m) => String::from_str("failed to download file: ").concat(
                m.as_str(),
            ),
            ResolveError::DecompressFailed(m) => String::from_str("failed to unpack file: ").concat(
                m.as_str(),
            ),
            ResolveError::MakeExecutableFailed(m) => String::from_str(
                "failed to make file executable: ",
            ).concat(m.as_str()),
            ResolveError::WrapperNotFound => String::from_str(
                "Wrapper mode enabled but no wrapper script found in wrappers/ directory. Please disable wrapper mode or use traditional token configuration.",
            ),
            ResolveError::WrapperPrerequisiteMissing(d) => String::from_str(
                "Wrapper script found but ",
            ).concat(d.as_str()).concat(" not available. Please install ").concat(d.as_str()).concat(
                " or disable wrapper mode.",
            ),
            ResolveError::MissingCredential => String::from_str(
                "No GitHub token found. Please set `github_personal_access_token` in settings, set GITHUB_TOKEN/GITHUB_PERSONAL_ACCESS_TOKEN environment variable, or enable `use_wrapper_script` for automatic authentication. You can get a token with: gh auth token",
            ),
            ResolveError::SettingsParseError(m) => String::from_str("invalid settings: ").concat(
                m.as_str(),
            ),
        }
    }
}

} // verus!
