//! The configuration snapshot that every operation starts from.

use vstd::prelude::*;
use vstd::string::*;
use crate::outcome::CommandError;

verus! {

/// The persisted launcher settings that the pipeline reads. Each may be unset.
#[derive(Debug, Clone)]
pub struct LauncherConfig {
    pub installation_dir: Option<String>,
    pub active_version: Option<String>,
    pub active_version_folder: Option<String>,
}

/// A complete snapshot: install root, active version and its storage folder.
#[derive(Debug, Clone)]
pub struct CommonConfigData {
    pub install_path: String,
    pub active_version: String,
    pub active_version_folder: String,
}

/// The failure text for the first setting that is unset, if any is.
pub open spec fn missing_setting(config: LauncherConfig) -> Option<Seq<char>> {
    if config.installation_dir.is_none() {
        Some("No installation directory set, can't perform operation"@)
    } else if config.active_version.is_none() {
        Some("No active version set, can't perform operation"@)
    } else if config.active_version_folder.is_none() {
        Some("No active version folder set, can't perform operation"@)
    } else {
        None
    }
}

/// Takes the snapshot an operation works on, or says which setting is unset.
pub fn common_prelude(config: &LauncherConfig) -> (r: Result<CommonConfigData, CommandError>)
    ensures
        match r {
            Ok(data) => {
                &&& missing_setting(*config).is_none()
                &&& Some(data.install_path) == config.installation_dir
                &&& Some(data.active_version) == config.active_version
                &&& Some(data.active_version_folder) == config.active_version_folder
            },
            Err(e) => {
                &&& e.is_binary_execution()
                &&& missing_setting(*config) == Some(e.text())
            },
        },
{
    let install_path = match &config.installation_dir {
        None => {
            return Err(
                CommandError::BinaryExecution(
                    "No installation directory set, can't perform operation".to_owned(),
                ),
            );
        },
        Some(path) => path.clone(),
    };
    let active_version = match &config.active_version {
        None => {
            return Err(
                CommandError::BinaryExecution(
                    "No active version set, can't perform operation".to_owned(),
                ),
            );
        },
        Some(version) => version.clone(),
    };
    let active_version_folder = match &config.active_version_folder {
        None => {
            return Err(
                CommandError::BinaryExecution(
                    "No active version folder set, can't perform operation".to_owned(),
                ),
            );
        },
        Some(folder) => folder.clone(),
    };
    Ok(CommonConfigData { install_path, active_version, active_version_folder })
}

} // verus!
