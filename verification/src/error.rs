//! The error taxonomy shared by every component.

use vstd::prelude::*;
use vstd::string::*;
use crate::text::concat2;

verus! {

/// Why an operation was refused.
///
/// The variants that report a failure of the file system, of a serialiser, of the
/// network or of the secret store carry the text of that failure.
#[derive(Debug)]
pub enum MilieuError {
    /// A file could not be read or written.
    Io(String),
    /// Stored text could not be decoded.
    TomlDe(String),
    /// A value could not be encoded as text.
    TomlSer(String),
    /// A JSON document could not be read or written.
    Json(String),
    /// The remote service could not be reached.
    Http(String),
    /// The secret store refused an operation.
    Keyring(String),
    /// A cryptographic step failed; the text says which.
    Crypto(String),
    /// The working directory holds no manifest.
    RepoNotInitialized,
    /// The manifest has no branch of this name.
    BranchNotFound(String),
    /// Neither a configuration directory nor a home directory is known.
    ConfigMissing,
    /// The session holds no access token.
    AuthMissing,
    /// The session holds no user id.
    UserIdMissing,
    /// The session holds no user master key.
    UmkMissing,
    /// The operation was refused; the text is shown to the user.
    CommandFailed(String),
}

/// A `MilieuError` with its texts as sequences of characters.
pub enum ErrorModel {
    Io(Seq<char>),
    TomlDe(Seq<char>),
    TomlSer(Seq<char>),
    Json(Seq<char>),
    Http(Seq<char>),
    Keyring(Seq<char>),
    Crypto(Seq<char>),
    RepoNotInitialized,
    BranchNotFound(Seq<char>),
    ConfigMissing,
    AuthMissing,
    UserIdMissing,
    UmkMissing,
    CommandFailed(Seq<char>),
}

impl View for MilieuError {
    type V = ErrorModel;

    open spec fn view(&self) -> ErrorModel {
        match self {
            MilieuError::Io(t) => ErrorModel::Io(t@),
            MilieuError::TomlDe(t) => ErrorModel::TomlDe(t@),
            MilieuError::TomlSer(t) => ErrorModel::TomlSer(t@),
            MilieuError::Json(t) => ErrorModel::Json(t@),
            MilieuError::Http(t) => ErrorModel::Http(t@),
            MilieuError::Keyring(t) => ErrorModel::Keyring(t@),
            MilieuError::Crypto(t) => ErrorModel::Crypto(t@),
            MilieuError::RepoNotInitialized => ErrorModel::RepoNotInitialized,
            MilieuError::BranchNotFound(t) => ErrorModel::BranchNotFound(t@),
            MilieuError::ConfigMissing => ErrorModel::ConfigMissing,
            MilieuError::AuthMissing => ErrorModel::AuthMissing,
            MilieuError::UserIdMissing => ErrorModel::UserIdMissing,
            MilieuError::UmkMissing => ErrorModel::UmkMissing,
            MilieuError::CommandFailed(t) => ErrorModel::CommandFailed(t@),
        }
    }
}

/// The line shown to the user for an error.
pub open spec fn message_text(e: ErrorModel) -> Seq<char> {
    match e {
        ErrorModel::Io(t) => "io error: "@ + t,
        ErrorModel::TomlDe(t) => "toml decode error: "@ + t,
        ErrorModel::TomlSer(t) => "toml encode error: "@ + t,
        ErrorModel::Json(t) => "json error: "@ + t,
        ErrorModel::Http(t) => "http error: "@ + t,
        ErrorModel::Keyring(t) => "keyring error: "@ + t,
        ErrorModel::Crypto(t) => "crypto error: "@ + t,
        ErrorModel::RepoNotInitialized => "repo not initialized; run `milieu init` or `milieu clone`"@,
        ErrorModel::BranchNotFound(t) => "branch not found: "@ + t,
        ErrorModel::ConfigMissing => "missing config directory or HOME"@,
        ErrorModel::AuthMissing => "missing auth token; run `milieu login`"@,
        ErrorModel::UserIdMissing => "missing user id; run `milieu login`"@,
        ErrorModel::UmkMissing => "missing UMK; run `milieu login`"@,
        ErrorModel::CommandFailed(t) => "command failed: "@ + t,
    }
}

impl MilieuError {
    /// The line shown to the user for this error.
    pub fn message(&self) -> (out: String)
        ensures
            out@ == message_text(self@),
    {
        match self {
            MilieuError::Io(t) => concat2("io error: ", t.as_str()),
            MilieuError::TomlDe(t) => concat2("toml decode error: ", t.as_str()),
            MilieuError::TomlSer(t) => concat2("toml encode error: ", t.as_str()),
            MilieuError::Json(t) => concat2("json error: ", t.as_str()),
            MilieuError::Http(t) => concat2("http error: ", t.as_str()),
            MilieuError::Keyring(t) => concat2("keyring error: ", t.as_str()),
            MilieuError::Crypto(t) => concat2("crypto error: ", t.as_str()),
            MilieuError::RepoNotInitialized => String::from_str(
                "repo not initialized; run `milieu init` or `milieu clone`",
            ),
            MilieuError::BranchNotFound(t) => concat2("branch not found: ", t.as_str()),
            MilieuError::ConfigMissing => String::from_str("missing config directory or HOME"),
            MilieuError::AuthMissing => String::from_str("missing auth token; run `milieu login`"),
            MilieuError::UserIdMissing => String::from_str("missing user id; run `milieu login`"),
            MilieuError::UmkMissing => String::from_str("missing UMK; run `milieu login`"),
            MilieuError::CommandFailed(t) => concat2("command failed: ", t.as_str()),
        }
    }

    /// A `Crypto` error with the given text.
    pub fn crypto(text: &str) -> (out: MilieuError)
        ensures
            out@ == ErrorModel::Crypto(text@),
    {
        MilieuError::Crypto(String::from_str(text))
    }

    /// A `CommandFailed` error with the given text.
    pub fn failed(text: &str) -> (out: MilieuError)
        ensures
            out@ == ErrorModel::CommandFailed(text@),
    {
        MilieuError::CommandFailed(String::from_str(text))
    }
}

} // verus!
