//! Where the application keeps its data and its configuration.

use vstd::prelude::*;

verus! {

/// `directories::ProjectDirs`, carried through as it is.
#[verifier::external_type_specification]
#[verifier::external_body]
pub struct ExProjectDirs(directories::ProjectDirs);

/// `directories::ProjectDirs::from` for this application. Whether a home
/// directory can be found depends on the environment, so nothing is claimed
/// of the outcome.
#[verifier::external_body]
fn project_directory() -> Option<directories::ProjectDirs> {
    directories::ProjectDirs::from("io.github", "sunsided", "serial-sensors")
}

/// `ProjectDirs::data_local_dir`, as text.
#[verifier::external_body]
fn project_data_dir(dirs: &directories::ProjectDirs) -> String {
    dirs.data_local_dir().to_string_lossy().into_owned()
}

/// `ProjectDirs::config_local_dir`, as text.
#[verifier::external_body]
fn project_config_dir(dirs: &directories::ProjectDirs) -> String {
    dirs.config_local_dir().to_string_lossy().into_owned()
}

/// The directory to use: the configured one if there is one, else the
/// project's, else the fallback.
pub open spec fn selected_dir(
    configured: Option<String>,
    project: Option<String>,
    fallback: Seq<char>,
) -> Seq<char> {
    match configured {
        Some(dir) => dir@,
        None => match project {
            Some(dir) => dir@,
            None => fallback,
        },
    }
}

/// Picks a directory by precedence: configured, then project, then fallback.
pub fn select_dir(configured: Option<String>, project: Option<String>, fallback: &str) -> (dir:
    String)
    ensures
        dir@ == selected_dir(configured, project, fallback@),
{
    match configured {
        Some(dir) => dir,
        None => match project {
            Some(dir) => dir,
            None => fallback.to_owned(),
        },
    }
}

/// Gets the application's data directory. `data_folder` is the directory
/// configured by the environment, which wins over everything else.
pub fn get_data_dir(data_folder: Option<String>) -> (dir: String)
    ensures
        data_folder matches Some(folder) ==> dir@ == folder@,
        exists|project: Option<String>| dir@ == selected_dir(data_folder, project, "./.data"@),
{
    if data_folder.is_some() {
        return select_dir(data_folder, None, "./.data");
    }
    let project = match project_directory() {
        Some(dirs) => Some(project_data_dir(&dirs)),
        None => None,
    };
    select_dir(None, project, "./.data")
}

/// Gets the application's configuration directory. `config_folder` is the
/// directory configured by the environment, which wins over everything else.
pub fn get_config_dir(config_folder: Option<String>) -> (dir: String)
    ensures
        config_folder matches Some(folder) ==> dir@ == folder@,
        exists|project: Option<String>|
            dir@ == selected_dir(config_folder, project, "./.config"@),
{
    if config_folder.is_some() {
        return select_dir(config_folder, None, "./.config");
    }
    let project = match project_directory() {
        Some(dirs) => Some(project_config_dir(&dirs)),
        None => None,
    };
    select_dir(None, project, "./.config")
}

} // verus!
