use vstd::prelude::*;

use crate::error::{ConfigPathError, ConfigSaveError, FileConfigParseError};

verus! {

/// The file name used when none is given.
pub const DEFAULT_CONFIG_FILE_NAME: &'static str = "config.json";

/// The text written to a configuration file that does not exist yet, so that
/// reading it yields a configuration made of defaults alone.
pub const EMPTY_CONFIG_TEXT: &'static str = "{}";

/// How many steps of a load read the file, before its value is saved back.
const READ_STEP_COUNT: usize = 4;

/// The path that `part` gives when it is adjoined to `base`.
pub uninterp spec fn path_joined(base: Seq<char>, part: Seq<char>) -> Seq<char>;

/// Relies on `std::path::Path::join`: the joined path depends on the two paths alone.
#[verifier::external_body]
fn join_path(base: &str, part: &str) -> (r: String)
    ensures
        r@ == path_joined(base@, part@),
{
    std::path::Path::new(base).join(part).to_string_lossy().into_owned()
}

/// Relies on `dirs::config_dir`: the per-user configuration directory of the
/// platform, if one can be found; it depends on the environment.
#[verifier::external_body]
fn os_config_dir() -> (r: Option<String>) {
    lum_libs::dirs::config_dir().map(|p| p.to_string_lossy().into_owned())
}

/// The file name that a handler uses, given the optional explicit one.
pub open spec fn chosen_file_name(config_file_name: Option<&str>) -> Seq<char> {
    match config_file_name {
        Some(name) => name@,
        None => "config.json"@,
    }
}

/// Locates the configuration file of one application, for the configuration
/// type `Config`.
///
/// The handler only knows where the file is: reading and writing it follows
/// the steps of [`load_plan`] and [`save_plan`].
#[derive(Debug)]
pub struct FileHandler<Config> {
    /// The directory that holds the configuration file.
    pub config_directory_path: String,
    /// The configuration file itself.
    pub config_file_path: String,
    _phantom_data: core::marker::PhantomData<Config>,
}

impl<Config> FileHandler<Config> {
    /// The path of the directory that holds the configuration file.
    pub closed spec fn directory(&self) -> Seq<char> {
        self.config_directory_path@
    }

    /// The path of the configuration file.
    pub closed spec fn file(&self) -> Seq<char> {
        self.config_file_path@
    }

    /// The handler's directory is `app_name` within `base`, and its file is
    /// `file_name` within that directory.
    pub open spec fn is_located(&self, base: Seq<char>, app_name: Seq<char>, file_name: Seq<char>) -> bool {
        &&& self.directory() == path_joined(base, app_name)
        &&& self.file() == path_joined(path_joined(base, app_name), file_name)
    }

    /// Creates a handler whose directory is `app_name` within `base`, holding
    /// `config_file_name`, or `config.json` where none is given.
    pub fn in_directory(base: &str, app_name: &str, config_file_name: Option<&str>) -> (r: Self)
        ensures
            r.is_located(base@, app_name@, chosen_file_name(config_file_name)),
    {
        proof {
            reveal_strlit("config.json");
        }
        let config_directory_path = join_path(base, app_name);
        let file_name = match config_file_name {
            Some(name) => name,
            None => DEFAULT_CONFIG_FILE_NAME,
        };
        let config_file_path = join_path(config_directory_path.as_str(), file_name);
        FileHandler { config_directory_path, config_file_path, _phantom_data: core::marker::PhantomData }
    }

    /// Creates a handler, taking the platform's configuration directory as
    /// an argument: the explicit directory is used where it is given, the
    /// platform's one otherwise, and where neither is known the location
    /// cannot be resolved.
    pub fn resolve(
        app_name: &str,
        config_directory: Option<&str>,
        config_file_name: Option<&str>,
        os_config_directory: Option<String>,
    ) -> (r: Result<Self, ConfigPathError>)
        ensures
            match (config_directory, os_config_directory) {
                (Some(dir), _) => r is Ok && r->Ok_0.is_located(dir@, app_name@, chosen_file_name(config_file_name)),
                (None, Some(dir)) => r is Ok && r->Ok_0.is_located(dir@, app_name@, chosen_file_name(config_file_name)),
                (None, None) => r == Err::<Self, ConfigPathError>(ConfigPathError::UnknownConfigDirectory),
            },
    {
        match config_directory {
            Some(dir) => Ok(Self::in_directory(dir, app_name, config_file_name)),
            None => match os_config_directory {
                Some(dir) => Ok(Self::in_directory(dir.as_str(), app_name, config_file_name)),
                None => Err(ConfigPathError::UnknownConfigDirectory),
            },
        }
    }

    /// Creates a handler for `app_name`, in `config_directory` or, where none
    /// is given, in the platform's configuration directory.
    pub fn new(app_name: &str, config_directory: Option<&str>, config_file_name: Option<&str>) -> (r: Result<Self, ConfigPathError>)
        ensures
            config_directory is Some ==> r is Ok && r->Ok_0.is_located(
                config_directory->Some_0@,
                app_name@,
                chosen_file_name(config_file_name),
            ),
            r is Ok ==> exists|base: Seq<char>| r->Ok_0.is_located(base, app_name@, chosen_file_name(config_file_name)),
            r is Err ==> config_directory is None && r == Err::<Self, ConfigPathError>(ConfigPathError::UnknownConfigDirectory),
    {
        let os_config_directory = match config_directory {
            Some(_) => None,
            None => os_config_dir(),
        };
        Self::resolve(app_name, config_directory, config_file_name, os_config_directory)
    }
}

/// One step of reading or writing a configuration file, carried out by the
/// caller on a handler's paths.
#[derive(Debug, Clone, Copy, PartialEq, Eq, Structural)]
pub enum FileStep {
    /// Create the configuration directory and its parents, if they are absent.
    CreateDirectory,
    /// Write [`EMPTY_CONFIG_TEXT`] to the configuration file, if it does not exist.
    CreateFileIfMissing,
    /// Read the configuration file's text.
    ReadFile,
    /// Turn the text that was read into a configuration value, filling every
    /// absent field with its default.
    Decode,
    /// Turn the configuration value into pretty-printed JSON text.
    Encode,
    /// Replace the configuration file's content with the encoded text.
    WriteFile,
}

/// The steps that save a configuration value.
pub open spec fn save_steps() -> Seq<FileStep> {
    seq![FileStep::CreateDirectory, FileStep::Encode, FileStep::WriteFile]
}

/// The steps that read a configuration file, before the value is saved back.
pub open spec fn read_steps() -> Seq<FileStep> {
    seq![FileStep::CreateDirectory, FileStep::CreateFileIfMissing, FileStep::ReadFile, FileStep::Decode]
}

/// The steps that load a configuration value: the file is read, and the value
/// read is saved back, so that the file holds every field afterwards.
pub open spec fn load_steps() -> Seq<FileStep> {
    read_steps() + save_steps()
}

/// The steps of a save, in order.
pub fn save_plan() -> (r: Vec<FileStep>)
    ensures
        r@ == save_steps(),
{
    let r = vec![FileStep::CreateDirectory, FileStep::Encode, FileStep::WriteFile];
    assert(r@ =~= save_steps());
    r
}

/// The steps of a load, in order.
pub fn load_plan() -> (r: Vec<FileStep>)
    ensures
        r@ == load_steps(),
{
    let mut r = vec![
        FileStep::CreateDirectory,
        FileStep::CreateFileIfMissing,
        FileStep::ReadFile,
        FileStep::Decode,
    ];
    assert(r@ =~= read_steps());
    let mut save = save_plan();
    r.append(&mut save);
    assert(r@ =~= load_steps());
    r
}

/// Why a step failed.
#[derive(Debug)]
pub enum StepFailure {
    /// Creating, reading or writing a file or directory failed.
    Io(std::io::Error),
    /// Decoding or encoding JSON text failed.
    Json(lum_libs::serde_json::Error),
}

/// The error that a save reports when one of its steps fails.
pub open spec fn save_error_of(failure: StepFailure) -> ConfigSaveError {
    match failure {
        StepFailure::Io(e) => ConfigSaveError::IO(e),
        StepFailure::Json(e) => ConfigSaveError::Serde(e),
    }
}

/// The error that a load reports when its step number `index` fails: a
/// failure while the file is read is reported as it is, one while the value
/// is saved back as a save error.
pub open spec fn load_error_of(index: int, failure: StepFailure) -> FileConfigParseError {
    if index < read_steps().len() {
        match failure {
            StepFailure::Io(e) => FileConfigParseError::IO(e),
            StepFailure::Json(e) => FileConfigParseError::Serde(e),
        }
    } else {
        FileConfigParseError::Save(save_error_of(failure))
    }
}

/// Every load repairs the file: after the text has been read and decoded, the
/// load ends with the full save of that value, and it decodes once, before it
/// encodes anything.
pub proof fn lemma_load_saves_back()
    ensures
        load_steps().subrange(0, read_steps().len() as int) == read_steps(),
        load_steps().subrange(read_steps().len() as int, load_steps().len() as int) == save_steps(),
        load_steps()[read_steps().len() - 1] == FileStep::Decode,
        forall|i: int|
            0 <= i < load_steps().len() && load_steps()[i] == FileStep::Decode ==> i == read_steps().len() - 1,
        forall|i: int|
            0 <= i < load_steps().len() && load_steps()[i] == FileStep::Encode ==> i >= read_steps().len(),
{
    assert(load_steps().subrange(0, read_steps().len() as int) =~= read_steps());
    assert(load_steps().subrange(read_steps().len() as int, load_steps().len() as int) =~= save_steps());
}

impl ConfigSaveError {
    /// The error of a save whose step failed with `failure`.
    pub fn from_failure(failure: StepFailure) -> (r: Self)
        ensures
            r == save_error_of(failure),
    {
        match failure {
            StepFailure::Io(e) => ConfigSaveError::IO(e),
            StepFailure::Json(e) => ConfigSaveError::Serde(e),
        }
    }
}

impl FileConfigParseError {
    /// The error of a load whose step number `index`, in [`load_plan`], failed
    /// with `failure`.
    pub fn from_load_failure(index: usize, failure: StepFailure) -> (r: Self)
        requires
            index < load_steps().len(),
        ensures
            r == load_error_of(index as int, failure),
    {
        if index < READ_STEP_COUNT {
            match failure {
                StepFailure::Io(e) => FileConfigParseError::IO(e),
                StepFailure::Json(e) => FileConfigParseError::Serde(e),
            }
        } else {
            FileConfigParseError::Save(ConfigSaveError::from_failure(failure))
        }
    }
}

} // verus!
