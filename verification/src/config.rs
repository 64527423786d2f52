//! The configuration: built-in defaults, overridden by the config file, overridden by the command
//! line.

use vstd::prelude::*;
use vstd::utf8::*;

use crate::native::{self, NativeString};
use crate::text;

verus! {

pub const DEFAULT_COMPOSE_DIR: &'static str = "/var/lib/lazydc";

pub const DEFAULT_DOCKER_BIN: &'static str = "docker";

pub const DEFAULT_REFRESH_INTERVAL_MS: u64 = 2_000;

pub const DEFAULT_LOG_LINES: usize = 100;

/// The configuration that the program runs with.
#[derive(Debug)]
pub struct AppConfig {
    pub compose_dir: NativeString,
    pub docker_bin: NativeString,
    pub refresh_interval_ms: u64,
    pub default_log_lines: usize,
}

/// An [`AppConfig`] as plain values.
#[verifier::ext_equal]
pub struct ConfigModel {
    pub compose_dir: Seq<u8>,
    pub docker_bin: Seq<u8>,
    pub refresh_interval_ms: u64,
    pub default_log_lines: usize,
}

impl View for AppConfig {
    type V = ConfigModel;

    open spec fn view(&self) -> ConfigModel {
        ConfigModel {
            compose_dir: self.compose_dir@,
            docker_bin: self.docker_bin@,
            refresh_interval_ms: self.refresh_interval_ms,
            default_log_lines: self.default_log_lines,
        }
    }
}

impl Clone for AppConfig {
    fn clone(&self) -> (copy: Self)
        ensures
            copy@ == self@,
    {
        AppConfig {
            compose_dir: self.compose_dir.clone(),
            docker_bin: self.docker_bin.clone(),
            refresh_interval_ms: self.refresh_interval_ms,
            default_log_lines: self.default_log_lines,
        }
    }
}

/// What the config file says. A key that it does not hold is `None`.
#[derive(Debug)]
pub struct FileConfig {
    pub compose_dir: Option<NativeString>,
    pub docker_bin: Option<NativeString>,
    pub refresh_interval_ms: Option<u64>,
    pub default_log_lines: Option<usize>,
}

/// A [`FileConfig`] as plain values.
#[verifier::ext_equal]
pub struct FileConfigModel {
    pub compose_dir: Option<Seq<u8>>,
    pub docker_bin: Option<Seq<u8>>,
    pub refresh_interval_ms: Option<u64>,
    pub default_log_lines: Option<usize>,
}

impl View for FileConfig {
    type V = FileConfigModel;

    open spec fn view(&self) -> FileConfigModel {
        FileConfigModel {
            compose_dir: self.compose_dir.deep_view(),
            docker_bin: self.docker_bin.deep_view(),
            refresh_interval_ms: self.refresh_interval_ms,
            default_log_lines: self.default_log_lines,
        }
    }
}

/// Why a config file is refused.
#[derive(Debug, Clone, Copy, PartialEq, Eq, Structural)]
pub enum ConfigError {
    /// The text is not TOML.
    NotToml,
    /// A known key holds a value of the wrong kind or out of range.
    BadValue,
}

impl ConfigError {
    /// The message for the user.
    pub fn message(&self, path: &NativeString) -> (message: String)
        ensures
            message@ == "failed to parse config file "@ + native::shown_text(path@),
    {
        "failed to parse config file ".to_owned().concat(&path.display())
    }
}

/// The message for a config file that cannot be read.
pub fn config_read_failure(path: &NativeString) -> (message: String)
    ensures
        message@ == "failed to read config file "@ + native::shown_text(path@),
{
    "failed to read config file ".to_owned().concat(&path.display())
}

/// A value at the top level of a TOML document, as far as a config key can hold one.
#[derive(Debug)]
pub enum TomlValue {
    Text(String),
    /// A number, with its value where it is an integer.
    Number(Option<i64>),
    Other,
}

/// A [`TomlValue`] as plain values.
#[verifier::ext_equal]
pub enum TomlModel {
    Text(Seq<char>),
    Number(Option<i64>),
    Other,
}

impl DeepView for TomlValue {
    type V = TomlModel;

    open spec fn deep_view(&self) -> TomlModel {
        match self {
            TomlValue::Text(text) => TomlModel::Text(text@),
            TomlValue::Number(number) => TomlModel::Number(*number),
            TomlValue::Other => TomlModel::Other,
        }
    }
}

/// The error of the `toml` crate's parser.
#[verifier::external_type_specification]
#[verifier::external_body]
pub struct ExTomlError(toml::de::Error);

/// The top-level entries that [`toml::from_str`] reads from a document, `None` where it refuses
/// the document.
pub uninterp spec fn toml_entries(text: Seq<char>) -> Option<Map<Seq<char>, TomlModel>>;

/// Whether a list holds each entry of a map once and nothing else.
pub open spec fn lists_entries(
    list: Seq<(Seq<char>, TomlModel)>,
    entries: Map<Seq<char>, TomlModel>,
) -> bool {
    &&& forall|i: int|
        0 <= i < list.len() ==> entries.contains_key(#[trigger] list[i].0) && entries[list[i].0]
            == list[i].1
    &&& forall|key: Seq<char>| #[trigger]
        entries.contains_key(key) ==> exists|i: int| 0 <= i < list.len() && list[i].0 == key
    &&& forall|i: int, j: int|
        0 <= i < j < list.len() ==> #[trigger] list[i].0 != #[trigger] list[j].0
}

/// Calls `toml::from_str` for a map of `serde_json::Value`, which takes a table for a table
/// whatever its keys are, and hands out the entries: strings as they are, numbers with their value
/// where they are integers, every other kind of value as [`TomlValue::Other`]. The map holds each
/// key once. Which documents are accepted, and which entries they have, is named, not described.
#[verifier::external_body]
fn parse_toml(text: &str) -> (entries: Result<Vec<(String, TomlValue)>, toml::de::Error>)
    ensures
        entries is Ok <==> toml_entries(text@) is Some,
        entries matches Ok(list) ==> lists_entries(list.deep_view(), toml_entries(text@)->0),
{
    let entries: serde_json::Map<String, serde_json::Value> = toml::from_str(text)?;
    Ok(entries.into_iter().map(|(key, value)| (key, match value {
        serde_json::Value::String(text) => TomlValue::Text(text),
        serde_json::Value::Number(number) => TomlValue::Number(number.as_i64()),
        serde_json::Value::Null => TomlValue::Other,
        serde_json::Value::Bool(_) => TomlValue::Other,
        serde_json::Value::Array(_) => TomlValue::Other,
        serde_json::Value::Object(_) => TomlValue::Other,
    })).collect())
}

/// Whether the first entry with the key stands at `index`.
pub open spec fn first_entry(list: Seq<(Seq<char>, TomlModel)>, key: Seq<char>, index: int) -> bool {
    &&& 0 <= index < list.len()
    &&& list[index].0 == key
    &&& forall|j: int| 0 <= j < index ==> #[trigger] list[j].0 != key
}

/// The value that a list of entries gives to a key.
pub open spec fn entry_value(list: Seq<(Seq<char>, TomlModel)>, key: Seq<char>) -> Option<
    TomlModel,
> {
    if exists|index: int| first_entry(list, key, index) {
        Some(list[choose|index: int| first_entry(list, key, index)].1)
    } else {
        None
    }
}

/// The path that a key holds: no value is no path, and any other value than a string is refused.
pub open spec fn path_setting(value: Option<TomlModel>) -> Result<Option<Seq<u8>>, ConfigError> {
    match value {
        None => Ok(None),
        Some(TomlModel::Text(text)) => Ok(Some(encode_utf8(text))),
        Some(_) => Err(ConfigError::BadValue),
    }
}

/// The number that a key holds: no value is no number, and anything but an integer from zero to
/// `max` is refused.
pub open spec fn number_setting(value: Option<TomlModel>, max: int) -> Result<
    Option<int>,
    ConfigError,
> {
    match value {
        None => Ok(None),
        Some(TomlModel::Number(Some(number))) if 0 <= number <= max => Ok(Some(number as int)),
        Some(_) => Err(ConfigError::BadValue),
    }
}

/// What the values of the four keys say together. Keys that are not known are ignored.
pub open spec fn file_settings(
    compose_dir: Option<TomlModel>,
    docker_bin: Option<TomlModel>,
    refresh_interval_ms: Option<TomlModel>,
    default_log_lines: Option<TomlModel>,
) -> Result<FileConfigModel, ConfigError> {
    match (
        path_setting(compose_dir),
        path_setting(docker_bin),
        number_setting(refresh_interval_ms, u64::MAX as int),
        number_setting(default_log_lines, usize::MAX as int),
    ) {
        (Ok(compose_dir), Ok(docker_bin), Ok(refresh), Ok(lines)) => Ok(
            FileConfigModel {
                compose_dir,
                docker_bin,
                refresh_interval_ms: match refresh {
                    Some(number) => Some(number as u64),
                    None => None,
                },
                default_log_lines: match lines {
                    Some(number) => Some(number as usize),
                    None => None,
                },
            },
        ),
        _ => Err(ConfigError::BadValue),
    }
}

/// What a list of top-level entries says.
pub open spec fn listed_settings(list: Seq<(Seq<char>, TomlModel)>) -> Result<
    FileConfigModel,
    ConfigError,
> {
    file_settings(
        entry_value(list, "compose_dir"@),
        entry_value(list, "docker_bin"@),
        entry_value(list, "refresh_interval_ms"@),
        entry_value(list, "default_log_lines"@),
    )
}

/// What a config file says.
pub open spec fn text_settings(text: Seq<char>) -> Result<FileConfigModel, ConfigError> {
    match toml_entries(text) {
        None => Err(ConfigError::NotToml),
        Some(entries) => file_settings(
            entries.get("compose_dir"@),
            entries.get("docker_bin"@),
            entries.get("refresh_interval_ms"@),
            entries.get("default_log_lines"@),
        ),
    }
}

/// A parsed config, as a plain value.
pub open spec fn settings_view(result: Result<FileConfig, ConfigError>) -> Result<
    FileConfigModel,
    ConfigError,
> {
    match result {
        Ok(config) => Ok(config@),
        Err(error) => Err(error),
    }
}

fn find_entry<'a>(list: &'a Vec<(String, TomlValue)>, key: &str) -> (value: Option<&'a TomlValue>)
    ensures
        value.deep_view() == entry_value(list.deep_view(), key@),
{
    let ghost views = list.deep_view();
    for i in 0..list.len()
        invariant
            views == list.deep_view(),
            forall|j: int| 0 <= j < i ==> #[trigger] views[j].0 != key@,
    {
        assert(views[i as int].0 == list@[i as int].0@);
        if text::same_text(&list[i].0, key) {
            assert(first_entry(views, key@, i as int));
            proof {
                let found = choose|index: int| first_entry(views, key@, index);
                if found < i {
                    assert(views[found].0 != key@);
                } else if i < found {
                    assert(views[i as int].0 != key@);
                }
            }
            return Some(&list[i].1);
        }
    }
    None
}

fn path_of(value: Option<&TomlValue>) -> (path: Result<Option<NativeString>, ConfigError>)
    ensures
        path is Ok <==> path_setting(value.deep_view()) is Ok,
        path matches Ok(path) ==> path_setting(value.deep_view()) == Ok::<
            Option<Seq<u8>>,
            ConfigError,
        >(path.deep_view()),
        path matches Err(error) ==> error == ConfigError::BadValue,
{
    match value {
        None => Ok(None),
        Some(TomlValue::Text(text)) => Ok(Some(NativeString::from_text(text))),
        Some(_) => Err(ConfigError::BadValue),
    }
}

fn number_of(value: Option<&TomlValue>, max: u64) -> (number: Result<Option<u64>, ConfigError>)
    ensures
        number is Ok <==> number_setting(value.deep_view(), max as int) is Ok,
        number matches Ok(None) ==> value is None,
        number matches Ok(Some(n)) ==> number_setting(value.deep_view(), max as int) == Ok::<
            Option<int>,
            ConfigError,
        >(Some(n as int)),
        number matches Err(error) ==> error == ConfigError::BadValue,
{
    match value {
        None => Ok(None),
        Some(TomlValue::Number(Some(number))) => {
            if *number < 0 || *number as u64 > max {
                Err(ConfigError::BadValue)
            } else {
                Ok(Some(*number as u64))
            }
        },
        Some(_) => Err(ConfigError::BadValue),
    }
}

impl FileConfig {
    /// What is said where there is no config file.
    pub open spec fn unset() -> FileConfigModel {
        FileConfigModel {
            compose_dir: None,
            docker_bin: None,
            refresh_interval_ms: None,
            default_log_lines: None,
        }
    }

    /// What a list of top-level entries says.
    pub fn from_entries(list: &Vec<(String, TomlValue)>) -> (config: Result<FileConfig, ConfigError>)
        ensures
            settings_view(config) == listed_settings(list.deep_view()),
    {
        let compose_dir = path_of(find_entry(list, "compose_dir"));
        let docker_bin = path_of(find_entry(list, "docker_bin"));
        let refresh = number_of(find_entry(list, "refresh_interval_ms"), u64::MAX);
        let lines = number_of(find_entry(list, "default_log_lines"), usize::MAX as u64);
        match (compose_dir, docker_bin, refresh, lines) {
            (Ok(compose_dir), Ok(docker_bin), Ok(refresh_interval_ms), Ok(lines)) => Ok(
                FileConfig {
                    compose_dir,
                    docker_bin,
                    refresh_interval_ms,
                    default_log_lines: match lines {
                        Some(lines) => Some(lines as usize),
                        None => None,
                    },
                },
            ),
            _ => Err(ConfigError::BadValue),
        }
    }

    /// What a config file says.
    pub fn parse(text: &str) -> (config: Result<FileConfig, ConfigError>)
        ensures
            settings_view(config) == text_settings(text@),
    {
        match parse_toml(text) {
            Err(_) => Err(ConfigError::NotToml),
            Ok(list) => {
                proof {
                    let views = list.deep_view();
                    let entries = toml_entries(text@)->0;
                    listed_value(views, entries, "compose_dir"@);
                    listed_value(views, entries, "docker_bin"@);
                    listed_value(views, entries, "refresh_interval_ms"@);
                    listed_value(views, entries, "default_log_lines"@);
                }
                FileConfig::from_entries(&list)
            },
        }
    }
}

proof fn listed_value(
    list: Seq<(Seq<char>, TomlModel)>,
    entries: Map<Seq<char>, TomlModel>,
    key: Seq<char>,
)
    requires
        lists_entries(list, entries),
    ensures
        entry_value(list, key) == entries.get(key),
{
    if entries.contains_key(key) {
        let i = choose|i: int| 0 <= i < list.len() && list[i].0 == key;
        assert forall|j: int| 0 <= j < i implies #[trigger] list[j].0 != key by {
            assert(list[j].0 != list[i].0);
        }
        assert(first_entry(list, key, i));
        let found = choose|index: int| first_entry(list, key, index);
        assert(entries.contains_key(list[found].0));
    } else if exists|index: int| first_entry(list, key, index) {
        let found = choose|index: int| first_entry(list, key, index);
        assert(entries.contains_key(list[found].0));
    }
}

/// The first of two values that is there, or else the default.
pub open spec fn first_of<T>(first: Option<T>, second: Option<T>, default: T) -> T {
    match (first, second) {
        (Some(value), _) => value,
        (None, Some(value)) => value,
        (None, None) => default,
    }
}

/// The configuration that the command line, the config file and the defaults make, the earlier
/// before the later.
pub open spec fn effective_config(
    file: FileConfigModel,
    compose_dir_override: Option<Seq<u8>>,
) -> ConfigModel {
    ConfigModel {
        compose_dir: first_of(
            compose_dir_override,
            file.compose_dir,
            encode_utf8(DEFAULT_COMPOSE_DIR@),
        ),
        docker_bin: first_of(None, file.docker_bin, encode_utf8(DEFAULT_DOCKER_BIN@)),
        refresh_interval_ms: first_of(None, file.refresh_interval_ms, DEFAULT_REFRESH_INTERVAL_MS),
        default_log_lines: first_of(None, file.default_log_lines, DEFAULT_LOG_LINES),
    }
}

impl AppConfig {
    /// The configuration that a config file and the command line make.
    pub fn from_parts(file: FileConfig, compose_dir_override: Option<NativeString>) -> (config:
        AppConfig)
        ensures
            config@ == effective_config(file@, compose_dir_override.deep_view()),
    {
        let compose_dir = match compose_dir_override {
            Some(dir) => dir,
            None => match file.compose_dir {
                Some(dir) => dir,
                None => NativeString::from_text(DEFAULT_COMPOSE_DIR),
            },
        };
        let docker_bin = match file.docker_bin {
            Some(bin) => bin,
            None => NativeString::from_text(DEFAULT_DOCKER_BIN),
        };
        AppConfig {
            compose_dir,
            docker_bin,
            refresh_interval_ms: file.refresh_interval_ms.unwrap_or(DEFAULT_REFRESH_INTERVAL_MS),
            default_log_lines: file.default_log_lines.unwrap_or(DEFAULT_LOG_LINES),
        }
    }

    /// The configuration, given the contents of the config file where there is one.
    pub fn load(config_text: Option<&str>, compose_dir_override: Option<NativeString>) -> (config:
        Result<AppConfig, ConfigError>)
        ensures
            match (config_text, config) {
                (None, Ok(config)) => config@ == effective_config(
                    FileConfig::unset(),
                    compose_dir_override.deep_view(),
                ),
                (None, Err(_)) => false,
                (Some(text), Ok(config)) => text_settings(text@) is Ok && config@
                    == effective_config(
                    text_settings(text@)->Ok_0,
                    compose_dir_override.deep_view(),
                ),
                (Some(text), Err(error)) => text_settings(text@) == Err::<
                    FileConfigModel,
                    ConfigError,
                >(error),
            },
    {
        let file = match config_text {
            None => FileConfig {
                compose_dir: None,
                docker_bin: None,
                refresh_interval_ms: None,
                default_log_lines: None,
            },
            Some(text) => match FileConfig::parse(text) {
                Ok(file) => file,
                Err(error) => {
                    return Err(error);
                },
            },
        };
        Ok(AppConfig::from_parts(file, compose_dir_override))
    }

    /// The env file that all projects share.
    pub fn env_file(&self) -> (path: NativeString)
        ensures
            path@ == global_env_file(self@.compose_dir),
    {
        self.compose_dir.join_text(".env.global")
    }
}

/// The env file that all projects below a compose directory share.
pub open spec fn global_env_file(compose_dir: Seq<u8>) -> Seq<u8> {
    native::path_below(compose_dir, encode_utf8(".env.global"@))
}

/// The path of the config file: the one asked for, or else the one below the user's
/// configuration directory, if there is one.
pub open spec fn chosen_config_path(asked: Option<Seq<u8>>, config_dir: Option<Seq<u8>>) -> Option<
    Seq<u8>,
> {
    match (asked, config_dir) {
        (Some(path), _) => Some(path),
        (None, Some(dir)) => Some(
            native::path_below(native::path_below(dir, encode_utf8("lazydc"@)), encode_utf8("config.toml"@)),
        ),
        (None, None) => None,
    }
}

/// Chooses the config file.
pub fn config_path(asked: Option<NativeString>, config_dir: Option<NativeString>) -> (path: Option<
    NativeString,
>)
    ensures
        path.deep_view() == chosen_config_path(asked.deep_view(), config_dir.deep_view()),
{
    match asked {
        Some(path) => Some(path),
        None => match config_dir {
            Some(dir) => Some(dir.join_text("lazydc").join_text("config.toml")),
            None => None,
        },
    }
}

/// A config file that sets every key to its default.
pub open spec fn example_text() -> Seq<char> {
    "compose_dir = \""@ + DEFAULT_COMPOSE_DIR@ + "\"\ndocker_bin = \""@ + DEFAULT_DOCKER_BIN@
        + "\"\nrefresh_interval_ms = "@ + text::decimal_text(DEFAULT_REFRESH_INTERVAL_MS as nat)
        + "\ndefault_log_lines = "@ + text::decimal_text(DEFAULT_LOG_LINES as nat) + "\n"@
}

/// A config file that sets every key to its default.
pub fn example_config() -> (text: String)
    ensures
        text@ == example_text(),
{
    "compose_dir = \"".to_owned().concat(DEFAULT_COMPOSE_DIR).concat("\"\ndocker_bin = \"").concat(
        DEFAULT_DOCKER_BIN,
    ).concat("\"\nrefresh_interval_ms = ").concat(&text::decimal(DEFAULT_REFRESH_INTERVAL_MS)).concat(
        "\ndefault_log_lines = ",
    ).concat(&text::decimal(DEFAULT_LOG_LINES as u64)).concat("\n")
}

/// The command line wins over the config file, and the config file over the defaults.
pub proof fn later_sources_only_fill_gaps(
    file: FileConfigModel,
    compose_dir_override: Option<Seq<u8>>,
)
    ensures
        ({
            let config = effective_config(file, compose_dir_override);
            &&& compose_dir_override matches Some(dir) ==> config.compose_dir == dir
            &&& compose_dir_override is None ==> (file.compose_dir matches Some(dir)
                ==> config.compose_dir == dir)
            &&& file.docker_bin matches Some(bin) ==> config.docker_bin == bin
            &&& file.refresh_interval_ms matches Some(ms) ==> config.refresh_interval_ms == ms
            &&& file.default_log_lines matches Some(lines) ==> config.default_log_lines == lines
            &&& file == FileConfig::unset() && compose_dir_override is None ==> {
                &&& config.compose_dir == encode_utf8(DEFAULT_COMPOSE_DIR@)
                &&& config.docker_bin == encode_utf8(DEFAULT_DOCKER_BIN@)
                &&& config.refresh_interval_ms == DEFAULT_REFRESH_INTERVAL_MS
                &&& config.default_log_lines == DEFAULT_LOG_LINES
            }
        }),
{
}

} // verus!
