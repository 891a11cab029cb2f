//! Building the ranked candidate list from the standard locations.
//!
//! The priority order is fixed: a path explicitly supplied by the caller
//! first, then the per-user standard configuration location, then the
//! system-wide location under `/etc`, then the shared fallback under
//! `/var/tmp`.  Only the per-user location depends on the process
//! environment; a failure to determine it is fatal and reported before any
//! file source is tried.

use vstd::prelude::*;

use crate::error::Error;
use crate::path::FsPath;

verus! {

/// Relies on `xdg::BaseDirectories::with_prefix` and `get_config_file`:
/// the per-user configuration location for `filename` under the
/// application's prefix, resolved from the process environment; or the
/// discovery error when the base directories cannot be determined.
#[verifier::external_body]
fn xdg_config_file_location(prefix: &str, filename: &str) -> Result<
    String,
    xdg::BaseDirectoriesError,
> {
    match xdg::BaseDirectories::with_prefix(prefix) {
        Ok(dirs) => Ok(dirs.get_config_file(filename).to_string_lossy().into_owned()),
        Err(e) => Err(e),
    }
}

/// Relies on the `Display` rendering of `xdg::BaseDirectoriesError` for
/// the diagnostic text.
#[verifier::external_body]
fn xdg_error_text(e: &xdg::BaseDirectoriesError) -> String {
    format!("{}", e)
}

#[verifier::external_type_specification]
#[verifier::external_body]
pub struct ExBaseDirectoriesError(xdg::BaseDirectoriesError);

/// The filename the configuration is stored under: the application's name
/// with the `.yaml` extension.
pub fn config_filename(app_name: &str) -> (r: String)
    ensures
        r@ == app_name@ + ".yaml"@,
{
    let mut out = String::new();
    out.append(app_name);
    out.append(".yaml");
    proof {
        assert(out@ =~= app_name@ + ".yaml"@);
    }
    out
}

/// The system-wide location: `/etc/<app_name>.yaml`.
pub open spec fn spec_etc_path(app_name: Seq<char>) -> Seq<Seq<char>> {
    seq!["etc"@, app_name + ".yaml"@]
}

/// The shared fallback location: `/var/tmp/<app_name>/<app_name>.yaml`.
pub open spec fn spec_var_tmp_path(app_name: Seq<char>) -> Seq<Seq<char>> {
    seq!["var"@, "tmp"@, app_name, app_name + ".yaml"@]
}

/// The ranked candidate list: the explicit path first when one was given,
/// then the per-user location, then the system-wide location, then the
/// shared fallback.  The order is fixed here and never re-sorted.
pub fn candidate_config_filepaths(
    app_name: &str,
    explicit: Option<FsPath>,
    user_config_file: FsPath,
) -> (r: Vec<FsPath>)
    ensures
        r.deep_view() == (match explicit {
            Some(p) => seq![p@],
            None => Seq::<Seq<Seq<char>>>::empty(),
        }) + seq![
            user_config_file@,
            spec_etc_path(app_name@),
            spec_var_tmp_path(app_name@),
        ],
{
    let filename = config_filename(app_name);
    let mut out: Vec<FsPath> = Vec::new();
    match explicit {
        Some(p) => {
            out.push(p);
        },
        None => {},
    }
    out.push(user_config_file);

    let mut etc_components: Vec<String> = Vec::new();
    etc_components.push(String::from_str("etc"));
    etc_components.push(filename.clone());
    proof {
        assert(etc_components.deep_view() =~= spec_etc_path(app_name@));
    }
    out.push(FsPath::from_components(etc_components));

    let mut var_tmp_components: Vec<String> = Vec::new();
    var_tmp_components.push(String::from_str("var"));
    var_tmp_components.push(String::from_str("tmp"));
    var_tmp_components.push(String::from_str(app_name));
    var_tmp_components.push(filename);
    proof {
        assert(var_tmp_components.deep_view() =~= spec_var_tmp_path(app_name@));
    }
    out.push(FsPath::from_components(var_tmp_components));

    proof {
        assert(out.deep_view() =~= (match explicit {
            Some(p) => seq![p@],
            None => Seq::<Seq<Seq<char>>>::empty(),
        }) + seq![
            user_config_file@,
            spec_etc_path(app_name@),
            spec_var_tmp_path(app_name@),
        ]);
    }
    out
}

/// Discovers the ranked candidate list for the application: asks the
/// process environment for the per-user standard location, and surrounds
/// it with the fixed locations.  When the per-user directories cannot be
/// determined, resolution must not proceed: the discovery error is
/// returned, with the underlying cause attached.
pub fn discover_config_filepaths(app_name: &str, explicit: Option<FsPath>) -> (r: Result<
    Vec<FsPath>,
    Error,
>)
    ensures
        r matches Err(e) ==> e is RetrieveConfigUserAppBaseDirectories,
        r matches Ok(v) ==> {
            let lead = match explicit {
                Some(p) => seq![p@],
                None => Seq::<Seq<Seq<char>>>::empty(),
            };
            &&& v.deep_view().len() == lead.len() + 3
            &&& v.deep_view().subrange(0, lead.len() as int) == lead
            &&& v.deep_view()[lead.len() as int + 1] == spec_etc_path(app_name@)
            &&& v.deep_view()[lead.len() as int + 2] == spec_var_tmp_path(app_name@)
        },
{
    let filename = config_filename(app_name);
    match xdg_config_file_location(app_name, filename.as_str()) {
        Err(e) => Err(
            Error::RetrieveConfigUserAppBaseDirectories { message: xdg_error_text(&e) },
        ),
        Ok(location) => {
            let user_config_file = FsPath::parse(location.as_str());
            let ghost lead: Seq<Seq<Seq<char>>> = match &explicit {
                Some(p) => seq![p@],
                None => Seq::<Seq<Seq<char>>>::empty(),
            };
            let r = candidate_config_filepaths(app_name, explicit, user_config_file);
            proof {
                assert(r.deep_view().subrange(0, lead.len() as int) =~= lead);
            }
            Ok(r)
        },
    }
}

} // verus!
