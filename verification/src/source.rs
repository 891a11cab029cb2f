//! One origin of partial configuration data: a candidate file at a path.
//!
//! Decoding a file's syntax is pluggable: the shell around the library
//! reads and decodes each readable candidate and reports the outcome here,
//! and the methods below are the layer's whole decision logic.  A missing
//! or unreadable file is a soft condition — skipped in the quiet API, a
//! hard error only in the `try_*` API — while a file that is readable but
//! fails to decode is always a hard error: content the user clearly
//! intended to use is never silently ignored.

use vstd::prelude::*;

use crate::config::{spec_merge, Config, ConfigV};
use crate::error::Error;
use crate::path::FsPath;
use crate::snapshot::{spec_exists_at, spec_readable_at, FsEntryV, FsSnapshot};

verus! {

/// The abstract value of a decode attempt.
pub ghost enum FileOutcomeV {
    Absent(Seq<char>),
    Decoded(ConfigV),
    Malformed(Seq<char>),
}

/// What came of trying to read and decode one candidate file: the file
/// could not be opened or read after all (with the cause, where a read
/// was attempted), or it decoded to a partial value, or it was readable
/// yet failed to decode (with the decoder's diagnostic).
#[derive(Debug)]
pub enum FileOutcome {
    Absent(String),
    Decoded(Config),
    Malformed(String),
}

impl View for FileOutcome {
    type V = FileOutcomeV;

    open spec fn view(&self) -> FileOutcomeV {
        match self {
            FileOutcome::Absent(m) => FileOutcomeV::Absent(m@),
            FileOutcome::Decoded(c) => FileOutcomeV::Decoded(c@),
            FileOutcome::Malformed(m) => FileOutcomeV::Malformed(m@),
        }
    }
}

impl FileOutcome {
    /// An equal outcome.
    pub fn duplicate(&self) -> (r: FileOutcome)
        ensures
            r@ == self@,
    {
        match self {
            FileOutcome::Absent(m) => FileOutcome::Absent(m.clone()),
            FileOutcome::Decoded(c) => FileOutcome::Decoded(c.clone()),
            FileOutcome::Malformed(m) => FileOutcome::Malformed(m.clone()),
        }
    }
}

/// The result is the hard "no file to find at `p`" error.
pub open spec fn spec_is_find_err<T>(r: Result<T, Error>, p: Seq<Seq<char>>) -> bool {
    r matches Err(Error::FindConfigFile { path }) && path@ == p
}

/// The result is the hard "could not read the file at `p`" error, with
/// the underlying cause `m`.
pub open spec fn spec_is_read_err<T>(r: Result<T, Error>, p: Seq<Seq<char>>, m: Seq<char>) -> bool {
    r matches Err(Error::ReadConfigFile { path, message }) && path@ == p && message@ == m
}

/// The result is the hard "the file at `p` has incorrect format" error,
/// with the decoder's diagnostic `m`.
pub open spec fn spec_is_format_err<T>(r: Result<T, Error>, p: Seq<Seq<char>>, m: Seq<char>) -> bool {
    r matches Err(Error::ConfigFileFormat { path, message }) && path@ == p && message@ == m
}

/// The whole contract of the demanding file source: a missing file is the
/// find error, an unreadable one (or one whose read failed after the
/// probe) the read error, a decode failure the format error — the
/// accumulator untouched in each — and only a decoded value merges.
pub open spec fn spec_try_filepath_post(
    pre: ConfigV,
    post: ConfigV,
    p: Seq<Seq<char>>,
    fs: Seq<FsEntryV>,
    out: FileOutcomeV,
    r: Result<(), Error>,
) -> bool {
    if !spec_exists_at(fs, p) {
        spec_is_find_err(r, p) && post == pre
    } else if !spec_readable_at(fs, p) {
        spec_is_read_err(r, p, "permission denied"@) && post == pre
    } else {
        match out {
            FileOutcomeV::Absent(m) => spec_is_read_err(r, p, m) && post == pre,
            FileOutcomeV::Decoded(c) => (r matches Ok(_)) && post == spec_merge(pre, c),
            FileOutcomeV::Malformed(m) => spec_is_format_err(r, p, m) && post == pre,
        }
    }
}

/// The whole contract of the quiet file source: a candidate that is not
/// readable, or whose read failed after the probe, is skipped with the
/// accumulator untouched; a decoded value merges; a decode failure is the
/// format error.
pub open spec fn spec_filepath_post(
    pre: ConfigV,
    post: ConfigV,
    p: Seq<Seq<char>>,
    fs: Seq<FsEntryV>,
    out: FileOutcomeV,
    r: Result<(), Error>,
) -> bool {
    if spec_readable_at(fs, p) {
        match out {
            FileOutcomeV::Absent(_) => (r matches Ok(_)) && post == pre,
            FileOutcomeV::Decoded(c) => (r matches Ok(_)) && post == spec_merge(pre, c),
            FileOutcomeV::Malformed(m) => spec_is_format_err(r, p, m) && post == pre,
        }
    } else {
        (r matches Ok(_)) && post == pre
    }
}

impl Config {
    /// Fills unset fields from the candidate file at `path`, demanding that
    /// the file be there: a missing or unreadable file is a hard error, and
    /// so are a read that failed after the probe and a decode failure.
    pub fn try_filepath(&mut self, path: &FsPath, fs: &FsSnapshot, outcome: FileOutcome) -> (r:
        Result<(), Error>)
        ensures
            spec_try_filepath_post(old(self)@, final(self)@, path@, fs@, outcome@, r),
    {
        match fs.lookup(path) {
            None => Err(Error::FindConfigFile { path: path.clone() }),
            Some(flags) => {
                if !flags.0 {
                    Err(
                        Error::ReadConfigFile {
                            path: path.clone(),
                            message: String::from_str("permission denied"),
                        },
                    )
                } else {
                    match outcome {
                        FileOutcome::Absent(m) => Err(
                            Error::ReadConfigFile { path: path.clone(), message: m },
                        ),
                        FileOutcome::Decoded(c) => {
                            self.config(c);
                            Ok(())
                        },
                        FileOutcome::Malformed(m) => Err(
                            Error::ConfigFileFormat { path: path.clone(), message: m },
                        ),
                    }
                }
            },
        }
    }

    /// Like [`Config::try_filepath`], but quiet: a candidate that is
    /// missing or cannot be read is skipped, so that preferred locations
    /// may simply not exist; a decode failure is still a hard error.
    pub fn filepath(&mut self, path: &FsPath, fs: &FsSnapshot, outcome: FileOutcome) -> (r: Result<
        (),
        Error,
    >)
        ensures
            spec_filepath_post(old(self)@, final(self)@, path@, fs@, outcome@, r),
    {
        let result = self.try_filepath(path, fs, outcome);
        match result {
            Ok(_) => Ok(()),
            Err(e) => match e {
                Error::FindConfigFile { .. } => Ok(()),
                Error::ReadConfigFile { .. } => Ok(()),
                _ => Err(e),
            },
        }
    }

    /// Like [`Config::filepath`], lifted over a candidate path that may be
    /// absent entirely; absence is a no-op.
    pub fn optional_filepath(
        &mut self,
        optional_path: &Option<FsPath>,
        fs: &FsSnapshot,
        outcome: FileOutcome,
    ) -> (r: Result<(), Error>)
        ensures
            optional_path is None ==> (r matches Ok(_)) && final(self)@ == old(self)@,
            optional_path matches Some(path) ==> spec_filepath_post(
                old(self)@,
                final(self)@,
                path@,
                fs@,
                outcome@,
                r,
            ),
    {
        match optional_path {
            Some(path) => self.filepath(path, fs, outcome),
            None => Ok(()),
        }
    }

    /// Like [`Config::try_filepath`], lifted over a candidate path that may
    /// be absent entirely; here absence is a hard error, since the caller
    /// demanded a file.
    pub fn try_optional_filepath(
        &mut self,
        optional_path: &Option<FsPath>,
        fs: &FsSnapshot,
        outcome: FileOutcome,
    ) -> (r: Result<(), Error>)
        ensures
            optional_path is None ==> (r matches Err(Error::FindOptionalConfigFile)) && final(self)@
                == old(self)@,
            optional_path matches Some(path) ==> spec_try_filepath_post(
                old(self)@,
                final(self)@,
                path@,
                fs@,
                outcome@,
                r,
            ),
    {
        match optional_path {
            Some(path) => self.try_filepath(path, fs, outcome),
            None => Err(Error::FindOptionalConfigFile),
        }
    }
}

} // verus!
