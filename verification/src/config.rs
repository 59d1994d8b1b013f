use vstd::prelude::*;
use crate::mode::Mode;

verus! {

/// The name of the configuration file that a project directory, or the
/// system configuration directory, holds.
pub const CONF_FILENAME: &'static str = "rinit.conf";

/// The daemon's and the control tool's configuration.
#[derive(Debug, Clone, Copy, PartialEq, Eq, Structural)]
pub struct Config {
    pub mode: Mode,
}

/// Why the configuration could not be assembled.
#[derive(Debug, Clone, PartialEq, Eq)]
pub enum ConfigError {
    /// The user's XDG base directories could not be determined.
    DirectoriesError,
    /// The configuration file given on the command line does not exist.
    DirsFileNotFound { config_file: String },
    /// The merged configuration could not be extracted.
    FigmentError,
}

/// Where the configuration is read from, after the built-in defaults and
/// before the `RINIT_` environment variables.
#[derive(Debug, Clone, PartialEq, Eq)]
pub enum ConfigSource {
    /// The file given on the command line.
    GivenFile(String),
    /// `rinit.conf` in the current directory.
    ProjectFile,
    /// The user's XDG base directories.
    UserDirs,
    /// `rinit.conf` in the system configuration directory.
    SystemFile,
}

/// Chooses where the configuration comes from and in which mode the
/// program runs. `given` is the file passed on the command line, if any,
/// and `given_exists` whether that file exists; `project_file_exists`
/// whether `rinit.conf` exists in the current directory; `uid` is the real
/// user id of the process. A given file that does not exist is an error.
pub fn select_config_source(
    given: Option<String>,
    given_exists: bool,
    project_file_exists: bool,
    uid: u32,
) -> (r: Result<(ConfigSource, Mode), ConfigError>)
    ensures
        match given {
            Some(path) => if given_exists {
                r == Ok::<(ConfigSource, Mode), ConfigError>(
                    (ConfigSource::GivenFile(path), if uid == 0 { Mode::Root } else { Mode::User }),
                )
            } else {
                r == Err::<(ConfigSource, Mode), ConfigError>(
                    ConfigError::DirsFileNotFound { config_file: path },
                )
            },
            None => r == Ok::<(ConfigSource, Mode), ConfigError>(
                (
                    if project_file_exists {
                        ConfigSource::ProjectFile
                    } else if uid != 0 {
                        ConfigSource::UserDirs
                    } else {
                        ConfigSource::SystemFile
                    },
                    if project_file_exists {
                        Mode::Project
                    } else if uid == 0 {
                        Mode::Root
                    } else {
                        Mode::User
                    },
                ),
            ),
        },
{
    let base_mode = if uid == 0 { Mode::Root } else { Mode::User };
    match given {
        Some(path) => {
            if given_exists {
                Ok((ConfigSource::GivenFile(path), base_mode))
            } else {
                Err(ConfigError::DirsFileNotFound { config_file: path })
            }
        },
        None => {
            if project_file_exists {
                Ok((ConfigSource::ProjectFile, Mode::Project))
            } else if uid != 0 {
                Ok((ConfigSource::UserDirs, base_mode))
            } else {
                Ok((ConfigSource::SystemFile, base_mode))
            }
        },
    }
}

} // verus!
