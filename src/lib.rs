//! Layered configuration loading: a configuration file that repairs itself,
//! overlaid by environment variables.

/// Reading the overlay from environment variables.
pub mod env_handler;
/// Error types used across the crate.
pub mod error;
/// Locating the configuration file, and the steps that read and write it.
pub mod file_handler;
/// Traits and helper functions for merging configurations.
pub mod merger;

pub use env_handler::EnvHandler;
pub use error::{
    ConfigLoadError, ConfigPathError, ConfigSaveError, EnvironmentConfigParseError,
    FileConfigParseError,
};
pub use file_handler::FileHandler;
pub use merger::{merge, try_merge, MergeFrom, MergeInto, TryMergeFrom, TryMergeInto};

use vstd::prelude::*;

verus! {

/// Finishes a load from the two sources: the first failure, looking at the
/// environment first, is reported; otherwise the environment's overlay is
/// merged into the file's configuration and takes precedence.
pub fn merge_loaded<FileConfig, EnvConfig>(
    env_config: Result<EnvConfig, EnvironmentConfigParseError>,
    file_config: Result<FileConfig, FileConfigParseError>,
) -> (r: Result<FileConfig, ConfigLoadError>) where FileConfig: MergeFrom<EnvConfig>,

    ensures
        match (env_config, file_config) {
            (Err(e), _) => r == Err::<FileConfig, ConfigLoadError>(ConfigLoadError::ParseEnv(e)),
            (Ok(_), Err(e)) => r == Err::<FileConfig, ConfigLoadError>(ConfigLoadError::ParseFile(e)),
            (Ok(env), Ok(file)) => r == Ok::<FileConfig, ConfigLoadError>(file.merged(env)),
        },
{
    match env_config {
        Err(e) => Err(ConfigLoadError::ParseEnv(e)),
        Ok(env) => match file_config {
            Err(e) => Err(ConfigLoadError::ParseFile(e)),
            Ok(file) => Ok(merge(file, env)),
        },
    }
}

} // verus!
