//! The configuration value and accumulator, and the merge that layers
//! sources.
//!
//! Every assignable field is optional: a source contributes only the fields
//! it knows.  Merging fills only fields still unset in the accumulator —
//! a field set by a higher-precedence source is never overwritten — and
//! the accumulator remembers, in its `loaded` flag, whether any merge ever
//! changed a field.  If, after all sources, nothing was loaded, the whole
//! accumulator is replaced by the hard default value; defaults are
//! all-or-nothing, never merged field by field.

use vstd::prelude::*;

use crate::level::{spec_parse_level_filter, LevelFilter};
use crate::text::spec_parse_bool;

verus! {

/// The abstract value of a configuration accumulator.
pub ghost struct ConfigV {
    pub log_dirpath: Option<Seq<char>>,
    pub log_level_filter: Option<LevelFilter>,
    pub no_color: Option<bool>,
    pub loaded: bool,
}

/// A configuration value: each field is present or absent, plus the record
/// of whether any source ever contributed a field.
#[derive(Debug)]
pub struct Config {
    /// Where log files should be written.
    pub log_dirpath: Option<String>,
    /// How verbose the logging sinks should be.
    pub log_level_filter: Option<LevelFilter>,
    /// Whether to suppress colored output.
    pub no_color: Option<bool>,
    is_modified: bool,
}

impl View for Config {
    type V = ConfigV;

    closed spec fn view(&self) -> ConfigV {
        ConfigV {
            log_dirpath: self.log_dirpath.deep_view(),
            log_level_filter: self.log_level_filter,
            no_color: self.no_color,
            loaded: self.is_modified,
        }
    }
}

impl DeepView for Config {
    type V = ConfigV;

    open spec fn deep_view(&self) -> ConfigV {
        self.view()
    }
}

/// The accumulator every resolution starts from: no field set, nothing
/// loaded.
pub open spec fn spec_empty_config() -> ConfigV {
    ConfigV { log_dirpath: None, log_level_filter: None, no_color: None, loaded: false }
}

/// The hard default value: fully populated, and counted as loaded.
pub open spec fn spec_default_config() -> ConfigV {
    ConfigV {
        log_dirpath: None,
        log_level_filter: Some(LevelFilter::Info),
        no_color: Some(false),
        loaded: true,
    }
}

/// The finalization of an accumulator: an accumulator that was never
/// loaded is discarded wholesale for the hard default value; one that was
/// loaded is returned exactly as it stands.
pub open spec fn spec_ensure_loaded(c: ConfigV) -> ConfigV {
    if c.loaded {
        c
    } else {
        spec_default_config()
    }
}

/// The merge of one partial value into an accumulator: each field still
/// unset takes the incoming value, a field already set keeps its own, and
/// the accumulator counts as loaded once any field actually changed.
pub open spec fn spec_merge(acc: ConfigV, other: ConfigV) -> ConfigV {
    ConfigV {
        log_dirpath: if acc.log_dirpath is Some {
            acc.log_dirpath
        } else {
            other.log_dirpath
        },
        log_level_filter: if acc.log_level_filter is Some {
            acc.log_level_filter
        } else {
            other.log_level_filter
        },
        no_color: if acc.no_color is Some {
            acc.no_color
        } else {
            other.no_color
        },
        loaded: acc.loaded || (acc.log_dirpath is None && other.log_dirpath is Some) || (
        acc.log_level_filter is None && other.log_level_filter is Some) || (acc.no_color is None
            && other.no_color is Some),
    }
}

/// What the environment contributes, given the raw variable readings: each
/// variable is parsed independently, and one that is absent or fails to
/// parse contributes nothing.
pub open spec fn spec_env_config(env: EnvReadingV) -> ConfigV {
    ConfigV {
        log_dirpath: env.log_dirpath,
        log_level_filter: match env.log_level_filter {
            Some(s) => spec_parse_level_filter(s),
            None => None,
        },
        no_color: match env.no_color {
            Some(s) => spec_parse_bool(s),
            None => None,
        },
        loaded: false,
    }
}

/// The abstract value of one reading of the recognized environment
/// variables.
pub ghost struct EnvReadingV {
    pub log_dirpath: Option<Seq<char>>,
    pub log_level_filter: Option<Seq<char>>,
    pub no_color: Option<Seq<char>>,
}

/// One reading of the recognized environment variables, raw: each field
/// holds the variable's text when the variable was set.  The recognized
/// names are the log-directory override (`LOG_DIRPATH`), the log-level
/// filter (`LOG_LEVEL_FILTER`) and the disable-color flag (`NO_COLOR`);
/// unrecognized variables are never read at all.
#[derive(Debug)]
pub struct EnvReading {
    /// The log-directory override variable.
    pub log_dirpath: Option<String>,
    /// The log-level filter variable.
    pub log_level_filter: Option<String>,
    /// The disable-color variable.
    pub no_color: Option<String>,
}

impl View for EnvReading {
    type V = EnvReadingV;

    open spec fn view(&self) -> EnvReadingV {
        EnvReadingV {
            log_dirpath: self.log_dirpath.deep_view(),
            log_level_filter: self.log_level_filter.deep_view(),
            no_color: self.no_color.deep_view(),
        }
    }
}

impl EnvReading {
    /// A reading with every variable unset.
    pub fn unset() -> (r: EnvReading)
        ensures
            r@.log_dirpath is None,
            r@.log_level_filter is None,
            r@.no_color is None,
    {
        EnvReading { log_dirpath: None, log_level_filter: None, no_color: None }
    }
}

impl Config {
    /// A fresh accumulator with every field unset and nothing loaded.
    pub fn new() -> (r: Config)
        ensures
            r@ == spec_empty_config(),
    {
        Config { log_dirpath: None, log_level_filter: None, no_color: None, is_modified: false }
    }

    /// A partial value with exactly the given fields set, as a source
    /// would contribute it; nothing is counted as loaded yet.
    pub fn from_fields(
        log_dirpath: Option<String>,
        log_level_filter: Option<LevelFilter>,
        no_color: Option<bool>,
    ) -> (r: Config)
        ensures
            r@ == (ConfigV {
                log_dirpath: log_dirpath.deep_view(),
                log_level_filter,
                no_color,
                loaded: false,
            }),
    {
        Config { log_dirpath, log_level_filter, no_color, is_modified: false }
    }

    /// Whether any source has contributed a field (or defaulting has
    /// replaced the accumulator) so far.
    pub fn is_loaded(&self) -> (r: bool)
        ensures
            r == self@.loaded,
    {
        self.is_modified
    }

    /// Records that the configuration counts as loaded from now on.
    pub fn set_loaded(&mut self)
        ensures
            final(self)@ == (ConfigV { loaded: true, ..old(self)@ }),
    {
        self.is_modified = true;
    }

    /// Fills every field still unset from `other`; a field already set is
    /// kept, even when `other` disagrees.  The accumulator counts as loaded
    /// once any field actually changes.
    pub fn config(&mut self, other: Config)
        ensures
            final(self)@ == spec_merge(old(self)@, other@),
    {
        let changed = (self.log_dirpath.is_none() && other.log_dirpath.is_some()) || (
        self.log_level_filter.is_none() && other.log_level_filter.is_some()) || (
        self.no_color.is_none() && other.no_color.is_some());
        if self.log_dirpath.is_none() {
            self.log_dirpath = other.log_dirpath;
        }
        if self.log_level_filter.is_none() {
            self.log_level_filter = other.log_level_filter;
        }
        if self.no_color.is_none() {
            self.no_color = other.no_color;
        }
        if changed {
            self.is_modified = true;
        }
    }

    /// Like [`Config::config`], lifted over a partial value that may be
    /// absent entirely; absence is a no-op.
    pub fn optional_config(&mut self, optional_other: Option<Config>)
        ensures
            final(self)@ == match optional_other {
                Some(other) => spec_merge(old(self)@, other@),
                None => old(self)@,
            },
    {
        match optional_other {
            Some(other) => self.config(other),
            None => {},
        }
    }

    /// Fills unset fields from the recognized environment variables: each
    /// one is parsed independently, and a variable that is absent or fails
    /// to parse contributes no field.
    pub fn env(&mut self, vars: &EnvReading)
        ensures
            final(self)@ == spec_merge(old(self)@, spec_env_config(vars@)),
    {
        let log_dirpath = match &vars.log_dirpath {
            Some(s) => Some(s.clone()),
            None => None,
        };
        let log_level_filter = match &vars.log_level_filter {
            Some(s) => crate::level::parse_level_filter(s.as_str()),
            None => None,
        };
        let no_color = match &vars.no_color {
            Some(s) => crate::text::parse_bool(s.as_str()),
            None => None,
        };
        let env_config = Config { log_dirpath, log_level_filter, no_color, is_modified: false };
        proof {
            assert(env_config@ == spec_env_config(vars@));
        }
        self.config(env_config);
    }

    /// Replaces the accumulator by the hard default value when no source
    /// contributed anything; an accumulator that was loaded is left alone.
    pub fn ensure_loaded(&mut self)
        ensures
            final(self)@ == spec_ensure_loaded(old(self)@),
    {
        if !self.is_loaded() {
            *self = Config::default();
        }
    }
}

impl Clone for Config {
    /// An equal configuration value, field by field.
    fn clone(&self) -> (r: Self)
        ensures
            r@ == self@,
    {
        let log_dirpath = match &self.log_dirpath {
            Some(s) => Some(s.clone()),
            None => None,
        };
        Config {
            log_dirpath,
            log_level_filter: self.log_level_filter,
            no_color: self.no_color,
            is_modified: self.is_modified,
        }
    }
}

impl Default for Config {
    /// The hard default value: fully populated, and counted as loaded.
    fn default() -> (r: Config)
        ensures
            r@ == spec_default_config(),
    {
        Config {
            log_dirpath: None,
            log_level_filter: Some(LevelFilter::Info),
            no_color: Some(false),
            is_modified: true,
        }
    }
}

/// Precedence: when a field is defined by a higher-priority source and by a
/// lower-priority one, and the accumulator does not hold it yet, the merged
/// result carries the higher-priority value, never the lower one.
pub proof fn lemma_merge_precedence(acc: ConfigV, first: ConfigV, second: ConfigV)
    ensures
        acc.log_dirpath is None && first.log_dirpath is Some ==> spec_merge(
            spec_merge(acc, first),
            second,
        ).log_dirpath == first.log_dirpath,
        acc.log_level_filter is None && first.log_level_filter is Some ==> spec_merge(
            spec_merge(acc, first),
            second,
        ).log_level_filter == first.log_level_filter,
        acc.no_color is None && first.no_color is Some ==> spec_merge(
            spec_merge(acc, first),
            second,
        ).no_color == first.no_color,
{
}

/// Idempotence: merging the same partial value a second time changes
/// nothing — neither the fields nor the loaded flag.
pub proof fn lemma_merge_idempotent(acc: ConfigV, other: ConfigV)
    ensures
        spec_merge(spec_merge(acc, other), other) == spec_merge(acc, other),
{
}

/// Unset-fill-only: a field that is already set in the accumulator is never
/// changed by a merge, whatever the incoming partial value holds.
pub proof fn lemma_merge_fills_only_unset(acc: ConfigV, other: ConfigV)
    ensures
        acc.log_dirpath is Some ==> spec_merge(acc, other).log_dirpath == acc.log_dirpath,
        acc.log_level_filter is Some ==> spec_merge(acc, other).log_level_filter
            == acc.log_level_filter,
        acc.no_color is Some ==> spec_merge(acc, other).no_color == acc.no_color,
{
}

} // verus!
