//! The error taxonomy of the resolver.
//!
//! Soft conditions (a missing or unreadable candidate in the quiet API) are
//! not errors: they are skipped by the callers.  Everything here is a hard
//! failure, and each carries the offending path when there is one, together
//! with the underlying cause as text.

use vstd::prelude::*;

use crate::path::{spec_render_path, FsPath};

verus! {

/// A hard failure during configuration resolution.
#[derive(Debug)]
pub enum Error {
    /// The per-user standard directories could not be determined, so no
    /// candidate list could even be built.
    RetrieveConfigUserAppBaseDirectories { message: String },
    /// The directory for a fresh configuration file could not be created.
    CreateConfigDirectory { path: FsPath, message: String },
    /// A fresh configuration file could not be created.
    CreateConfigFile { path: FsPath, message: String },
    /// A configuration file that was demanded, or probed readable, could
    /// not be read.
    ReadConfigFile { path: FsPath, message: String },
    /// The default value could not be persisted to a fresh configuration
    /// file.
    WriteConfigFile { path: FsPath, message: String },
    /// A configuration file was readable but failed to decode; this is
    /// never skipped.
    ConfigFileFormat { path: FsPath, message: String },
    /// A configuration file that was demanded does not exist.
    FindConfigFile { path: FsPath },
    /// A configuration file was demanded, but no path was supplied at all.
    FindOptionalConfigFile,
}

/// The one-line diagnostic for each failure.
pub open spec fn spec_error_message(e: Error) -> Seq<char> {
    match e {
        Error::RetrieveConfigUserAppBaseDirectories { message } =>
            "could not retrieve the XDG base directories for the user: "@ + message@,
        Error::CreateConfigDirectory { path, message } => "could not create the config directory at "@
            + spec_render_path(path@) + ": "@ + message@,
        Error::CreateConfigFile { path, message } => "could not create the config file at "@
            + spec_render_path(path@) + ": "@ + message@,
        Error::ReadConfigFile { path, message } => "could not read the config file at "@
            + spec_render_path(path@) + ": "@ + message@,
        Error::WriteConfigFile { path, message } => "could not write a config file at "@
            + spec_render_path(path@) + ": "@ + message@,
        Error::ConfigFileFormat { path, message } => "the config file at "@ + spec_render_path(
            path@,
        ) + " has incorrect format: "@ + message@,
        Error::FindConfigFile { path } => "could not find a config file at "@ + spec_render_path(
            path@,
        ),
        Error::FindOptionalConfigFile => "could not find an optional config file"@,
    }
}

impl Error {
    /// Renders the failure as a single human-readable diagnostic line.
    pub fn message(&self) -> (r: String)
        ensures
            r@ == spec_error_message(*self),
    {
        let mut out = String::new();
        match self {
            Error::RetrieveConfigUserAppBaseDirectories { message } => {
                out.append("could not retrieve the XDG base directories for the user: ");
                out.append(message.as_str());
            },
            Error::CreateConfigDirectory { path, message } => {
                out.append("could not create the config directory at ");
                out.append(path.render().as_str());
                out.append(": ");
                out.append(message.as_str());
            },
            Error::CreateConfigFile { path, message } => {
                out.append("could not create the config file at ");
                out.append(path.render().as_str());
                out.append(": ");
                out.append(message.as_str());
            },
            Error::ReadConfigFile { path, message } => {
                out.append("could not read the config file at ");
                out.append(path.render().as_str());
                out.append(": ");
                out.append(message.as_str());
            },
            Error::WriteConfigFile { path, message } => {
                out.append("could not write a config file at ");
                out.append(path.render().as_str());
                out.append(": ");
                out.append(message.as_str());
            },
            Error::ConfigFileFormat { path, message } => {
                out.append("the config file at ");
                out.append(path.render().as_str());
                out.append(" has incorrect format: ");
                out.append(message.as_str());
            },
            Error::FindConfigFile { path } => {
                out.append("could not find a config file at ");
                out.append(path.render().as_str());
            },
            Error::FindOptionalConfigFile => {
                out.append("could not find an optional config file");
            },
        }
        proof {
            assert(out@ =~= spec_error_message(*self));
        }
        out
    }
}

} // verus!
