use lum_config::merger;
use lum_config::{FileHandler, MergeFrom};

const APP_NAME: &str = "lum";
const ENV_CONFIG_VALUE_SET: &str = "Environment config";
const ENV_CONFIG_VALUE_NOT_SET: &str = "Environment config not set";
const FILE_CONFIG_VALUE_SET: &str = "File config";
const NESTED_CONFIG_VALUE_SET: &str = "Nested config";

#[derive(Debug)]
struct EnvConfig {
    value: Option<String>,
}

impl Default for EnvConfig {
    fn default() -> Self {
        EnvConfig {
            value: Some(ENV_CONFIG_VALUE_SET.to_string()),
        }
    }
}

#[derive(Debug)]
struct FileConfig {
    value: String,
    env_config_variable: String,
}

impl Default for FileConfig {
    fn default() -> Self {
        FileConfig {
            value: FILE_CONFIG_VALUE_SET.to_string(),
            env_config_variable: ENV_CONFIG_VALUE_NOT_SET.to_string(),
        }
    }
}

impl MergeFrom<EnvConfig> for FileConfig {
    fn merge_from(self, other: EnvConfig) -> Self {
        FileConfig {
            value: self.value,
            env_config_variable: other.value.unwrap_or("Missing".to_string()),
        }
    }
}

#[derive(Debug)]
struct NestedConfig {
    value: String,
    file_config: Option<FileConfig>,
}

impl Default for NestedConfig {
    fn default() -> Self {
        NestedConfig {
            value: NESTED_CONFIG_VALUE_SET.to_string(),
            file_config: None,
        }
    }
}

impl MergeFrom<FileConfig> for NestedConfig {
    fn merge_from(self, other: FileConfig) -> Self {
        NestedConfig {
            value: self.value,
            file_config: Some(other),
        }
    }
}

#[test]
fn construction_allows_different_string_types() {
    let app_name = APP_NAME;
    let owned_name = String::from(app_name);

    let _file_handler: FileHandler<FileConfig> = FileHandler::new(app_name, None, None).unwrap();
    let _file_handler: FileHandler<FileConfig> =
        FileHandler::new(&owned_name, None, Some(owned_name.as_str())).unwrap();
}

#[test]
fn file_config_default() {
    let file_config = FileConfig::default();

    assert_eq!(file_config.value, FILE_CONFIG_VALUE_SET);
    assert_eq!(file_config.env_config_variable, ENV_CONFIG_VALUE_NOT_SET);
}

#[test]
fn env_config_default() {
    let env_config = EnvConfig::default();

    assert!(env_config.value.is_some());
    assert_eq!(env_config.value.unwrap(), ENV_CONFIG_VALUE_SET);
}

#[test]
fn merge() {
    let file_config = FileConfig::default();
    let env_config = EnvConfig::default();

    let merged_config = merger::merge(file_config, env_config);

    assert_eq!(merged_config.value, FILE_CONFIG_VALUE_SET);
    assert_eq!(merged_config.env_config_variable, ENV_CONFIG_VALUE_SET);
}

#[test]
fn nested_config() {
    let nested_config = NestedConfig::default();
    assert_eq!(nested_config.value, NESTED_CONFIG_VALUE_SET);
    assert!(nested_config.file_config.is_none());

    let file_config = FileConfig::default();
    let merged_config = merger::merge(nested_config, file_config);
    assert_eq!(merged_config.value, NESTED_CONFIG_VALUE_SET);
    assert_eq!(merged_config.file_config.unwrap().value, FILE_CONFIG_VALUE_SET);
}
