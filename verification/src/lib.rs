//! Layered configuration resolution.
//!
//! One effective configuration value is assembled from several ranked
//! sources: an explicit value from the caller, the process environment, and
//! an ordered list of candidate files.  Each source may supply only a subset
//! of the fields; earlier sources take precedence, and a later source only
//! fills fields that are still unset.  A filesystem validity model decides,
//! for any candidate path, whether it is readable, writable, or creatable
//! (it does not yet exist, but its nearest existing ancestor directory is
//! writable), which is used both to skip unusable candidates silently and to
//! decide where a fresh configuration file may be written.

pub mod config;
pub mod discover;
pub mod error;
pub mod level;
pub mod path;
pub mod probe;
pub mod resolve;
pub mod snapshot;
pub mod source;
pub mod text;
pub mod verdicts;

pub use config::{Config, EnvReading};
pub use discover::{candidate_config_filepaths, config_filename, discover_config_filepaths};
pub use error::Error;
pub use level::{parse_level_filter, LevelFilter};
pub use path::FsPath;
pub use probe::probe_paths;
pub use resolve::{choose_log_dirpath, resolve, run_gui, FileCandidate};
pub use snapshot::{FsEntry, FsSnapshot};
pub use source::FileOutcome;
pub use text::parse_bool;
pub use verdicts::{PathCheck, Permissions, ValidPaths};
