use vstd::prelude::*;

verus! {

#[verifier::external_type_specification]
#[verifier::external_body]
pub struct ExIoError(std::io::Error);

#[verifier::external_type_specification]
#[verifier::external_body]
pub struct ExJsonError(lum_libs::serde_json::Error);

#[verifier::external_type_specification]
#[verifier::external_body]
pub struct ExEnvError(lum_libs::serde_env::Error);

/// Error that can occur when trying to get the OS-specific config directory.
#[derive(Debug, PartialEq, Eq, Structural)]
pub enum ConfigPathError {
    UnknownConfigDirectory,
}

impl ConfigPathError {
    /// A human-readable description of the error.
    pub fn message(&self) -> (r: String)
        ensures
            r@ == "Unable to get OS-specific config directory"@,
    {
        proof {
            reveal_strlit("Unable to get OS-specific config directory");
        }
        match self {
            ConfigPathError::UnknownConfigDirectory => "Unable to get OS-specific config directory".to_string(),
        }
    }
}

/// Error that can occur when trying to save a configuration to a file.
#[derive(Debug)]
pub enum ConfigSaveError {
    /// The configuration could not be turned into JSON text.
    Serde(lum_libs::serde_json::Error),
    /// Creating the directory or writing the file failed.
    IO(std::io::Error),
}

/// Error that can occur when trying to parse a configuration from a file.
#[derive(Debug)]
pub enum FileConfigParseError {
    /// The value that was read could not be written back.
    Save(ConfigSaveError),
    /// Creating the directory, or reading or creating the file, failed.
    IO(std::io::Error),
    /// The file's text is not a valid configuration.
    Serde(lum_libs::serde_json::Error),
}

/// Error that can occur when trying to parse a configuration from environment variables.
#[derive(Debug)]
pub enum EnvironmentConfigParseError {
    SerdeEnv(lum_libs::serde_env::Error),
}

/// Error that can occur when trying to load a configuration.
#[derive(Debug)]
pub enum ConfigLoadError {
    /// The configuration file's location could not be resolved.
    Path(ConfigPathError),
    /// The environment variables could not be read into the overlay.
    ParseEnv(EnvironmentConfigParseError),
    /// The configuration file could not be loaded.
    ParseFile(FileConfigParseError),
}

impl From<lum_libs::serde_json::Error> for ConfigSaveError {
    fn from(e: lum_libs::serde_json::Error) -> Self {
        ConfigSaveError::Serde(e)
    }
}

impl vstd::std_specs::convert::FromSpecImpl<lum_libs::serde_json::Error> for ConfigSaveError {
    open spec fn obeys_from_spec() -> bool {
        true
    }

    open spec fn from_spec(e: lum_libs::serde_json::Error) -> Self {
        ConfigSaveError::Serde(e)
    }
}

impl From<std::io::Error> for ConfigSaveError {
    fn from(e: std::io::Error) -> Self {
        ConfigSaveError::IO(e)
    }
}

impl vstd::std_specs::convert::FromSpecImpl<std::io::Error> for ConfigSaveError {
    open spec fn obeys_from_spec() -> bool {
        true
    }

    open spec fn from_spec(e: std::io::Error) -> Self {
        ConfigSaveError::IO(e)
    }
}

impl From<ConfigSaveError> for FileConfigParseError {
    fn from(e: ConfigSaveError) -> Self {
        FileConfigParseError::Save(e)
    }
}

impl vstd::std_specs::convert::FromSpecImpl<ConfigSaveError> for FileConfigParseError {
    open spec fn obeys_from_spec() -> bool {
        true
    }

    open spec fn from_spec(e: ConfigSaveError) -> Self {
        FileConfigParseError::Save(e)
    }
}

impl From<std::io::Error> for FileConfigParseError {
    fn from(e: std::io::Error) -> Self {
        FileConfigParseError::IO(e)
    }
}

impl vstd::std_specs::convert::FromSpecImpl<std::io::Error> for FileConfigParseError {
    open spec fn obeys_from_spec() -> bool {
        true
    }

    open spec fn from_spec(e: std::io::Error) -> Self {
        FileConfigParseError::IO(e)
    }
}

impl From<lum_libs::serde_json::Error> for FileConfigParseError {
    fn from(e: lum_libs::serde_json::Error) -> Self {
        FileConfigParseError::Serde(e)
    }
}

impl vstd::std_specs::convert::FromSpecImpl<lum_libs::serde_json::Error> for FileConfigParseError {
    open spec fn obeys_from_spec() -> bool {
        true
    }

    open spec fn from_spec(e: lum_libs::serde_json::Error) -> Self {
        FileConfigParseError::Serde(e)
    }
}

impl From<lum_libs::serde_env::Error> for EnvironmentConfigParseError {
    fn from(e: lum_libs::serde_env::Error) -> Self {
        EnvironmentConfigParseError::SerdeEnv(e)
    }
}

impl vstd::std_specs::convert::FromSpecImpl<lum_libs::serde_env::Error> for EnvironmentConfigParseError {
    open spec fn obeys_from_spec() -> bool {
        true
    }

    open spec fn from_spec(e: lum_libs::serde_env::Error) -> Self {
        EnvironmentConfigParseError::SerdeEnv(e)
    }
}

impl From<ConfigPathError> for ConfigLoadError {
    fn from(e: ConfigPathError) -> Self {
        ConfigLoadError::Path(e)
    }
}

impl vstd::std_specs::convert::FromSpecImpl<ConfigPathError> for ConfigLoadError {
    open spec fn obeys_from_spec() -> bool {
        true
    }

    open spec fn from_spec(e: ConfigPathError) -> Self {
        ConfigLoadError::Path(e)
    }
}

impl From<EnvironmentConfigParseError> for ConfigLoadError {
    fn from(e: EnvironmentConfigParseError) -> Self {
        ConfigLoadError::ParseEnv(e)
    }
}

impl vstd::std_specs::convert::FromSpecImpl<EnvironmentConfigParseError> for ConfigLoadError {
    open spec fn obeys_from_spec() -> bool {
        true
    }

    open spec fn from_spec(e: EnvironmentConfigParseError) -> Self {
        ConfigLoadError::ParseEnv(e)
    }
}

impl From<FileConfigParseError> for ConfigLoadError {
    fn from(e: FileConfigParseError) -> Self {
        ConfigLoadError::ParseFile(e)
    }
}

impl vstd::std_specs::convert::FromSpecImpl<FileConfigParseError> for ConfigLoadError {
    open spec fn obeys_from_spec() -> bool {
        true
    }

    open spec fn from_spec(e: FileConfigParseError) -> Self {
        ConfigLoadError::ParseFile(e)
    }
}

} // verus!
