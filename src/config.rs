//! Layered configuration: compiled-in defaults < config file < environment.
//!
//! The resolver does no I/O itself. The caller hands it what it found on disk
//! and in the environment, and it answers with the resolved configuration and
//! with the file that has to be written on first run.

use vstd::prelude::*;
use vstd::string::*;

verus! {

/// The verbosity levels of the command-line tool.
#[derive(Clone, Copy, Debug, PartialEq, Eq, Structural)]
pub enum VerbosityLevel {
    Off,
    Error,
    Warn,
    Info,
    Debug,
}

/// The compiled-in verbosity level.
pub open spec fn spec_default_log_level() -> Seq<char> {
    "info"@
}

/// The compiled-in controller base URL.
pub open spec fn spec_default_controller_url() -> Seq<char> {
    "http://localhost:8080"@
}

/// The level that a verbosity string names; anything unknown is `Info`.
pub open spec fn spec_verbosity_level(s: Seq<char>) -> VerbosityLevel {
    if s == "off"@ {
        VerbosityLevel::Off
    } else if s == "error"@ {
        VerbosityLevel::Error
    } else if s == "warn"@ {
        VerbosityLevel::Warn
    } else if s == "info"@ {
        VerbosityLevel::Info
    } else if s == "debug"@ {
        VerbosityLevel::Debug
    } else {
        VerbosityLevel::Info
    }
}

/// The text of `o`, or `d` where `o` is absent.
pub open spec fn text_or(o: Option<Seq<char>>, d: Seq<char>) -> Seq<char> {
    match o {
        Some(s) => s,
        None => d,
    }
}

/// The view of an optional string.
pub open spec fn opt_view(o: Option<String>) -> Option<Seq<char>> {
    match o {
        Some(s) => Some(s@),
        None => None,
    }
}

pub fn default_log_level_str() -> (r: String)
    ensures
        r@ == spec_default_log_level(),
{
    "info".to_owned()
}

pub fn default_controller_url() -> (r: String)
    ensures
        r@ == spec_default_controller_url(),
{
    "http://localhost:8080".to_owned()
}

fn same_text(a: &str, b: &str) -> (r: bool)
    ensures
        r == (a@ == b@),
{
    a.to_owned() == b.to_owned()
}

/// Maps a verbosity string to its level; an unknown string gives `Info`.
pub fn get_verbosity_level_from_string(verbosity_level_str: &str) -> (r: VerbosityLevel)
    ensures
        r == spec_verbosity_level(verbosity_level_str@),
{
    if same_text(verbosity_level_str, "off") {
        VerbosityLevel::Off
    } else if same_text(verbosity_level_str, "error") {
        VerbosityLevel::Error
    } else if same_text(verbosity_level_str, "warn") {
        VerbosityLevel::Warn
    } else if same_text(verbosity_level_str, "info") {
        VerbosityLevel::Info
    } else if same_text(verbosity_level_str, "debug") {
        VerbosityLevel::Debug
    } else {
        VerbosityLevel::Info
    }
}


/// The persisted part of the configuration.
pub struct ConfigFile {
    pub controller_url: String,
    pub verbosity_level: String,
}

/// What a `ConfigFile` holds, as text.
pub struct ConfigFileView {
    pub controller_url: Seq<char>,
    pub verbosity_level: Seq<char>,
}

impl View for ConfigFile {
    type V = ConfigFileView;

    open spec fn view(&self) -> ConfigFileView {
        ConfigFileView { controller_url: self.controller_url@, verbosity_level: self.verbosity_level@ }
    }
}

/// The compiled-in configuration file.
pub open spec fn spec_default_file() -> ConfigFileView {
    ConfigFileView {
        controller_url: spec_default_controller_url(),
        verbosity_level: spec_default_log_level(),
    }
}

/// A file whose keys were read as given; each absent key takes its default.
pub open spec fn spec_file_from_fields(
    controller_url: Option<Seq<char>>,
    verbosity_level: Option<Seq<char>>,
) -> ConfigFileView {
    ConfigFileView {
        controller_url: text_or(controller_url, spec_default_controller_url()),
        verbosity_level: text_or(verbosity_level, spec_default_log_level()),
    }
}

impl ConfigFile {
    /// The compiled-in defaults.
    pub fn defaults() -> (r: ConfigFile)
        ensures
            r@ == spec_default_file(),
    {
        ConfigFile {
            controller_url: default_controller_url(),
            verbosity_level: default_log_level_str(),
        }
    }

    /// Builds the file from the keys that were present; each absent key
    /// independently takes its compiled-in default.
    pub fn from_fields(controller_url: Option<String>, verbosity_level: Option<String>) -> (r:
        ConfigFile)
        ensures
            r@ == spec_file_from_fields(opt_view(controller_url), opt_view(verbosity_level)),
    {
        let controller_url = match controller_url {
            Some(u) => u,
            None => default_controller_url(),
        };
        let verbosity_level = match verbosity_level {
            Some(v) => v,
            None => default_log_level_str(),
        };
        ConfigFile { controller_url, verbosity_level }
    }
}

/// What was found at the configuration path.
pub enum StoredConfig {
    /// Nothing exists at the path.
    Missing,
    /// A well-formed file, with the keys it holds.
    Found { controller_url: Option<String>, verbosity_level: Option<String> },
}

/// The outcome of reading the configuration path.
pub struct ConfigFileRead {
    /// The values to resolve from.
    pub file: ConfigFile,
    /// The file to create at the path, where it was missing.
    pub to_create: Option<ConfigFile>,
}

/// The values that reading `stored` yields.
pub open spec fn spec_read_file(stored: StoredConfig) -> ConfigFileView {
    match stored {
        StoredConfig::Missing => spec_default_file(),
        StoredConfig::Found { controller_url, verbosity_level } => spec_file_from_fields(
            opt_view(controller_url),
            opt_view(verbosity_level),
        ),
    }
}

/// The file that reading `stored` creates: the defaults where nothing
/// exists, none otherwise.
pub open spec fn spec_to_create(stored: StoredConfig) -> Option<ConfigFileView> {
    match stored {
        StoredConfig::Missing => Some(spec_default_file()),
        StoredConfig::Found { .. } => None,
    }
}

/// The view of an optional file.
pub open spec fn opt_file_view(o: Option<ConfigFile>) -> Option<ConfigFileView> {
    match o {
        Some(f) => Some(f@),
        None => None,
    }
}

/// Reads the configuration path: a missing file is to be created holding the
/// defaults, which are then used; an existing one is used as it is and never
/// written.
pub fn read_config_file(stored: StoredConfig) -> (r: ConfigFileRead)
    ensures
        r.file@ == spec_read_file(stored),
        opt_file_view(r.to_create) == spec_to_create(stored),
{
    match stored {
        StoredConfig::Missing => ConfigFileRead {
            file: ConfigFile::defaults(),
            to_create: Some(ConfigFile::defaults()),
        },
        StoredConfig::Found { controller_url, verbosity_level } => ConfigFileRead {
            file: ConfigFile::from_fields(controller_url, verbosity_level),
            to_create: None,
        },
    }
}

/// The values of the environment variables `KUDO_CONFIG`,
/// `KUDO_CONTROLLER_URL` and `KUDO_VERBOSITY_LEVEL`.
pub struct EnvOverrides {
    pub config: Option<String>,
    pub controller_url: Option<String>,
    pub verbosity_level: Option<String>,
}

/// What an `EnvOverrides` holds, as text.
pub struct EnvView {
    pub config: Option<Seq<char>>,
    pub controller_url: Option<Seq<char>>,
    pub verbosity_level: Option<Seq<char>>,
}

impl View for EnvOverrides {
    type V = EnvView;

    open spec fn view(&self) -> EnvView {
        EnvView {
            config: opt_view(self.config),
            controller_url: opt_view(self.controller_url),
            verbosity_level: opt_view(self.verbosity_level),
        }
    }
}

impl EnvOverrides {
    /// An environment that sets none of the variables.
    pub fn none() -> (r: EnvOverrides)
        ensures
            r@ == (EnvView { config: None, controller_url: None, verbosity_level: None }),
    {
        EnvOverrides { config: None, controller_url: None, verbosity_level: None }
    }
}

/// The value of the environment variable where it is set, `config_var`
/// otherwise.
pub fn check_env_override(env_value: &Option<String>, config_var: &str) -> (r: String)
    ensures
        r@ == text_or(opt_view(*env_value), config_var@),
{
    match env_value {
        Some(v) => v.clone(),
        None => config_var.to_owned(),
    }
}

/// `<home>/.kudo/config.yaml`, with `.` for a home that is unknown.
pub open spec fn spec_default_config_file(home: Option<Seq<char>>) -> Seq<char> {
    let base = text_or(home, "."@);
    if base.len() > 0 && base.last() == '/' {
        base + ".kudo/config.yaml"@
    } else {
        base + "/.kudo/config.yaml"@
    }
}

/// The default configuration path under the home directory `home`.
pub fn default_config_file(home: Option<String>) -> (r: String)
    ensures
        r@ == spec_default_config_file(opt_view(home)),
{
    let mut base = match home {
        Some(h) => h,
        None => ".".to_owned(),
    };
    let n = base.as_str().unicode_len();
    if n > 0 && base.as_str().get_char(n - 1) == '/' {
        base.append(".kudo/config.yaml");
    } else {
        base.append("/.kudo/config.yaml");
    }
    base
}

/// The configuration path: `KUDO_CONFIG` verbatim where it is set, the
/// default path under `home` otherwise.
pub open spec fn spec_config_file_path(env: EnvView, home: Option<Seq<char>>) -> Seq<char> {
    text_or(env.config, spec_default_config_file(home))
}

pub fn config_file_path(env: &EnvOverrides, home: Option<String>) -> (r: String)
    ensures
        r@ == spec_config_file_path(env@, opt_view(home)),
{
    match &env.config {
        Some(p) => p.clone(),
        None => default_config_file(home),
    }
}

/// The resolved configuration of one process run.
pub struct Config {
    /// Where the configuration was resolved from; kept for diagnostics.
    pub config_file: String,
    pub controller_url: String,
    pub verbosity_level: VerbosityLevel,
}

/// What a `Config` holds.
pub struct ConfigView {
    pub config_file: Seq<char>,
    pub controller_url: Seq<char>,
    pub verbosity_level: VerbosityLevel,
}

impl View for Config {
    type V = ConfigView;

    open spec fn view(&self) -> ConfigView {
        ConfigView {
            config_file: self.config_file@,
            controller_url: self.controller_url@,
            verbosity_level: self.verbosity_level,
        }
    }
}

/// The configuration resolved at `path` from the file's values and the
/// environment: each variable that is set wins over the file for its tunable.
pub open spec fn spec_resolve(path: Seq<char>, file: ConfigFileView, env: EnvView) -> ConfigView {
    ConfigView {
        config_file: path,
        controller_url: text_or(env.controller_url, file.controller_url),
        verbosity_level: spec_verbosity_level(text_or(env.verbosity_level, file.verbosity_level)),
    }
}

impl Config {
    /// Merges the file's values read from `config_file` with the overrides of
    /// `env`. Resolution never fails: an unknown verbosity gives `Info`.
    pub fn resolve(config_file: String, file: &ConfigFile, env: &EnvOverrides) -> (r: Config)
        ensures
            r@ == spec_resolve(config_file@, file@, env@),
    {
        let verbosity_level_string = check_env_override(&env.verbosity_level, file.verbosity_level.as_str());
        let verbosity_level = get_verbosity_level_from_string(verbosity_level_string.as_str());
        let controller_url = check_env_override(&env.controller_url, file.controller_url.as_str());
        Config { config_file, controller_url, verbosity_level }
    }
}

/// The whole resolution: the configuration at the path that `env` and `home`
/// give, from what was found there.
pub open spec fn spec_resolve_stored(env: EnvView, home: Option<Seq<char>>, stored: StoredConfig) -> ConfigView {
    spec_resolve(spec_config_file_path(env, home), spec_read_file(stored), env)
}

/// No environment variable set.
pub open spec fn no_overrides(env: EnvView) -> bool {
    env.config is None && env.controller_url is None && env.verbosity_level is None
}

/// Resolving twice against an existing file, with no environment overrides,
/// gives equal configurations, and neither resolution writes the file.
pub proof fn lemma_resolution_idempotent(
    env: EnvView,
    home: Option<Seq<char>>,
    controller_url: Option<String>,
    verbosity_level: Option<String>,
)
    requires
        no_overrides(env),
    ensures
        ({
            let stored = StoredConfig::Found { controller_url, verbosity_level };
            let first = spec_resolve_stored(env, home, stored);
            let second = spec_resolve_stored(env, home, stored);
            &&& spec_to_create(stored) is None
            &&& first == second
            &&& first.controller_url == text_or(opt_view(controller_url), spec_default_controller_url())
            &&& first.verbosity_level == spec_verbosity_level(
                text_or(opt_view(verbosity_level), spec_default_log_level()),
            )
        }),
{
}

/// On first run the defaults are both used and written; reading the written
/// file back resolves to the same configuration.
pub proof fn lemma_first_run_bootstrap(
    env: EnvView,
    home: Option<Seq<char>>,
    written_url: String,
    written_level: String,
)
    requires
        written_url@ == spec_default_controller_url(),
        written_level@ == spec_default_log_level(),
    ensures
        spec_to_create(StoredConfig::Missing) == Some(spec_default_file()),
        spec_read_file(StoredConfig::Missing) == spec_default_file(),
        spec_read_file(
            StoredConfig::Found {
                controller_url: Some(written_url),
                verbosity_level: Some(written_level),
            },
        ) == spec_default_file(),
        spec_resolve_stored(env, home, StoredConfig::Missing) == spec_resolve_stored(
            env,
            home,
            StoredConfig::Found {
                controller_url: Some(written_url),
                verbosity_level: Some(written_level),
            },
        ),
{
}

/// A file holding only `controller_url` keeps that URL and resolves the
/// verbosity to the compiled-in `Info`.
pub proof fn lemma_partial_file_defaulting(path: Seq<char>, controller_url: String)
    ensures
        ({
            let file = spec_read_file(
                StoredConfig::Found { controller_url: Some(controller_url), verbosity_level: None },
            );
            let env = EnvView { config: None, controller_url: None, verbosity_level: None };
            &&& file.controller_url == controller_url@
            &&& file.verbosity_level == "info"@
            &&& spec_resolve(path, file, env).controller_url == controller_url@
            &&& spec_resolve(path, file, env).verbosity_level == VerbosityLevel::Info
        }),
{
    reveal_strlit("info");
    reveal_strlit("off");
    reveal_strlit("error");
    reveal_strlit("warn");
    assert("info"@.len() != "off"@.len());
    assert("info"@.len() != "error"@.len());
    assert("info"@[0] != "warn"@[0]);
}

/// A controller URL set in the environment wins over the file's.
pub proof fn lemma_env_override_precedence(path: Seq<char>, file: ConfigFileView, env: EnvView, url: Seq<char>)
    requires
        env.controller_url == Some(url),
    ensures
        spec_resolve(path, file, env).controller_url == url,
{
}

/// A verbosity string that names no level resolves to `Info`, whether it
/// comes from the file or from the environment.
pub proof fn lemma_unknown_verbosity_is_info(path: Seq<char>, file: ConfigFileView, env: EnvView)
    requires
        ({
            let s = text_or(env.verbosity_level, file.verbosity_level);
            s != "off"@ && s != "error"@ && s != "warn"@ && s != "debug"@
        }),
    ensures
        spec_resolve(path, file, env).verbosity_level == VerbosityLevel::Info,
{
}

/// `bogus` names no level.
pub proof fn lemma_bogus_names_no_level()
    ensures
        spec_verbosity_level("bogus"@) == VerbosityLevel::Info,
{
    reveal_strlit("bogus");
    reveal_strlit("off");
    reveal_strlit("error");
    reveal_strlit("warn");
    reveal_strlit("info");
    reveal_strlit("debug");
    assert("bogus"@.len() != "off"@.len());
    assert("bogus"@[0] != "error"@[0]);
    assert("bogus"@.len() != "warn"@.len());
    assert("bogus"@.len() != "info"@.len());
    assert("bogus"@[0] != "debug"@[0]);
}

} // verus!
