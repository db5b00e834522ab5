//! Plain-value configuration records, the GGUF file descriptor, and the
//! verified assessment behind model-configuration validation.  Reading files
//! and parsing JSON happen outside; this module owns what is decided from
//! their results.

use vstd::prelude::*;
use crate::platform::get_current_time;

verus! {

/// Program execution arguments.
#[derive(Clone, Debug)]
pub struct Arguments {
    /// Configuration file path.
    pub config_path: String,
}

impl Arguments {
    /// A new argument record for a configuration file path.
    pub fn new(config_path: String) -> (r: Arguments)
        ensures
            r.config_path == config_path,
    {
        Arguments { config_path }
    }
}

impl Default for Arguments {
    /// Arguments with an empty configuration path.
    fn default() -> (r: Arguments)
        ensures
            r.config_path@ == Seq::<char>::empty(),
    {
        Arguments { config_path: String::new() }
    }
}

/// Engine settings, an immutable snapshot taken at startup.
#[derive(Clone, Debug)]
pub struct EngineConfig {
    pub common: CommonConfig,
}

/// The settings shared by every engine component.
#[derive(Clone, Debug)]
pub struct CommonConfig {
    /// Port the request server binds to.
    pub api_port: u16,
}

impl Default for EngineConfig {
    /// The built-in engine settings: port 5000, until a loaded
    /// configuration replaces them.
    fn default() -> (r: EngineConfig)
        ensures
            r.common.api_port == 5000,
    {
        EngineConfig { common: CommonConfig { api_port: 5000 } }
    }
}

/// Preferences applied when models are discovered on disk.
#[derive(Clone, Debug)]
pub struct ModelPreferences {
    pub prefer_quantized: bool,
    pub max_file_size_gb: u64,
    pub min_file_size_mb: u64,
}

/// Names of the environment variables the surrounding program may read.
#[derive(Clone, Debug)]
pub struct EnvironmentConfig {
    pub model_path_var: String,
    pub default_model_var: String,
    pub models_dir_var: String,
}

/// Model selection settings.
#[derive(Clone, Debug)]
pub struct ModelConfig {
    pub engine_port: i16,
    pub model_path: String,
    pub default_model: String,
    pub model_directory: String,
    pub fallback_models: Vec<String>,
    pub model_preferences: ModelPreferences,
    pub environment_variables: EnvironmentConfig,
}

impl Default for ModelConfig {
    /// The built-in model settings.  Discovery from the environment and the
    /// models directory happens outside and overrides these fields.
    fn default() -> (r: ModelConfig)
        ensures
            r.engine_port == 5000,
            r.model_path@ == Seq::<char>::empty(),
            r.default_model@ == Seq::<char>::empty(),
            r.model_directory@ == "models"@,
            r.fallback_models@ == Seq::<String>::empty(),
            r.model_preferences.prefer_quantized,
            r.model_preferences.max_file_size_gb == 20,
            r.model_preferences.min_file_size_mb == 100,
            r.environment_variables.model_path_var@ == "MODEL_PATH"@,
            r.environment_variables.default_model_var@ == "DEFAULT_MODEL"@,
            r.environment_variables.models_dir_var@ == "MODELS_DIR"@,
    {
        ModelConfig {
            engine_port: 5000,
            model_path: String::new(),
            default_model: String::new(),
            model_directory: String::from_str("models"),
            fallback_models: Vec::new(),
            model_preferences: ModelPreferences {
                prefer_quantized: true,
                max_file_size_gb: 20,
                min_file_size_mb: 100,
            },
            environment_variables: EnvironmentConfig {
                model_path_var: String::from_str("MODEL_PATH"),
                default_model_var: String::from_str("DEFAULT_MODEL"),
                models_dir_var: String::from_str("MODELS_DIR"),
            },
        }
    }
}

/// What is known about a GGUF model file on disk.
#[derive(Clone, Debug)]
pub struct GgufInfo {
    pub path: String,
    pub file_size: u64,
    pub is_valid: bool,
    pub model_name: String,
}

/// The four magic bytes that open a GGUF file.
pub open spec fn gguf_magic() -> Seq<u8> {
    seq![0x47u8, 0x47u8, 0x55u8, 0x46u8]
}

/// Whether the given file head starts with the GGUF magic bytes.
pub fn is_gguf_magic(head: &Vec<u8>) -> (r: bool)
    ensures
        r == (head@.len() >= 4 && head@.subrange(0, 4) == gguf_magic()),
{
    if head.len() < 4 {
        return false;
    }
    let r = head[0] == 0x47 && head[1] == 0x47 && head[2] == 0x55 && head[3] == 0x46;
    proof {
        if r {
            assert(head@.subrange(0, 4) =~= gguf_magic());
        } else {
            if head@.subrange(0, 4) == gguf_magic() {
                assert(head@[0] == 0x47 && head@[1] == 0x47 && head@[2] == 0x55 && head@[3]
                    == 0x46) by {
                    assert(head@.subrange(0, 4)[0] == head@[0]);
                    assert(head@.subrange(0, 4)[1] == head@[1]);
                    assert(head@.subrange(0, 4)[2] == head@[2]);
                    assert(head@.subrange(0, 4)[3] == head@[3]);
                }
            }
        }
    }
    r
}

/// Result of one model-configuration validation.
#[derive(Clone, Debug)]
pub struct ValidationStatus {
    pub is_valid: bool,
    pub validation_time: String,
    pub validator: String,
    pub errors: Vec<String>,
    pub warnings: Vec<String>,
}

impl Default for ValidationStatus {
    /// A validation that has found nothing yet: not valid, no findings,
    /// stamped with the current wall-clock time.
    fn default() -> (r: ValidationStatus)
        ensures
            !r.is_valid,
            r.validator@ == "rust_validator"@,
            r.errors@ == Seq::<String>::empty(),
            r.warnings@ == Seq::<String>::empty(),
    {
        ValidationStatus {
            is_valid: false,
            validation_time: get_current_time(),
            validator: String::from_str("rust_validator"),
            errors: Vec::new(),
            warnings: Vec::new(),
        }
    }
}

/// What the caller found when it tried to load the configuration file.
#[derive(Clone, Debug)]
pub enum ConfigSource {
    /// No file at the configuration path.
    Missing,
    /// The file exists but could not be read; the payload is the error text.
    Unreadable(String),
    /// The file was read but is not valid JSON; the payload is the error text.
    Unparsable(String),
    /// The file parsed into a model configuration.
    Parsed(ModelConfig),
}

/// Whether a model file's size passes the configured preferences: no larger
/// than the ceiling in whole gigabytes, no smaller than the floor in whole
/// megabytes.
pub fn model_size_acceptable(prefs: &ModelPreferences, file_size: u64) -> (r: bool)
    ensures
        r == (file_size as int / 1048576 / 1024 <= prefs.max_file_size_gb as int && file_size
            as int / 1048576 >= prefs.min_file_size_mb as int),
{
    let mb = file_size / (1024 * 1024);
    let gb = mb / 1024;
    gb <= prefs.max_file_size_gb && mb >= prefs.min_file_size_mb
}

/// The items joined by ", ".
pub open spec fn comma_join(items: Seq<Seq<char>>) -> Seq<char>
    decreases items.len(),
{
    if items.len() == 0 {
        Seq::<char>::empty()
    } else if items.len() == 1 {
        items[0]
    } else {
        items[0] + ", "@ + comma_join(items.drop_first())
    }
}

proof fn lemma_comma_join_push(items: Seq<Seq<char>>, x: Seq<char>)
    ensures
        comma_join(items.push(x)) == if items.len() == 0 {
            x
        } else {
            comma_join(items) + ", "@ + x
        },
    decreases items.len(),
{
    if items.len() == 0 {
        assert(items.push(x)[0] == x);
        assert(items.push(x).len() == 1);
    } else {
        lemma_comma_join_push(items.drop_first(), x);
        assert(items.push(x).drop_first() =~= items.drop_first().push(x));
        if items.len() == 1 {
            assert(comma_join(items.drop_first().push(x)) == x);
            assert(comma_join(items) == items[0]);
        } else {
            assert((items[0] + ", "@ + (comma_join(items.drop_first()) + ", "@ + x)) =~= ((items[0]
                + ", "@ + comma_join(items.drop_first())) + ", "@ + x));
        }
    }
}

/// Joins the items with ", " between them.
pub fn join_with_commas(items: &Vec<String>) -> (r: String)
    ensures
        r@ == comma_join(items.deep_view()),
{
    let mut r = String::new();
    let n = items.len();
    let mut i: usize = 0;
    while i < n
        invariant
            n == items@.len(),
            i <= n,
            r@ == comma_join(items.deep_view().take(i as int)),
        decreases n - i,
    {
        if i > 0 {
            r.append(", ");
        }
        r.append(items[i].as_str());
        proof {
            let prefix = items.deep_view().take(i as int);
            lemma_comma_join_push(prefix, items.deep_view()[i as int]);
            assert(items.deep_view().take(i + 1) =~= prefix.push(items.deep_view()[i as int]));
        }
        i += 1;
    }
    proof {
        assert(items.deep_view().take(n as int) =~= items.deep_view());
    }
    r
}

/// The errors one validation reports: a missing, unreadable or unparsable
/// configuration file, or a configured model file that is not on disk.
pub open spec fn expected_errors(
    source: ConfigSource,
    config_path: Seq<char>,
    model_file_exists: bool,
) -> Seq<Seq<char>> {
    match source {
        ConfigSource::Missing => seq!["Configuration file not found: "@ + config_path],
        ConfigSource::Unreadable(e) => seq!["Failed to read config file: "@ + e@],
        ConfigSource::Unparsable(e) => seq!["Invalid JSON format: "@ + e@],
        ConfigSource::Parsed(cfg) => if cfg.model_path@.len() > 0 && !model_file_exists {
            seq!["Model file not found: "@ + cfg.model_path@]
        } else {
            Seq::<Seq<char>>::empty()
        },
    }
}

/// The warnings one validation reports, in order: a missing models
/// directory, fallback models that are not on disk, and the two preference
/// checks.
pub open spec fn expected_warnings(
    source: ConfigSource,
    model_dir_exists: bool,
    missing: Seq<Seq<char>>,
) -> Seq<Seq<char>> {
    match source {
        ConfigSource::Parsed(cfg) => {
            let w1 = if !model_dir_exists {
                seq!["Model directory not found: "@ + cfg.model_directory@]
            } else {
                Seq::<Seq<char>>::empty()
            };
            let w2 = if missing.len() > 0 {
                w1.push("Some fallback models not found: "@ + comma_join(missing))
            } else {
                w1
            };
            let w3 = if cfg.model_preferences.max_file_size_gb == 0 {
                w2.push("Max file size is 0, may be too restrictive"@)
            } else {
                w2
            };
            if cfg.model_preferences.min_file_size_mb > cfg.model_preferences.max_file_size_gb
                * 1024 {
                w3.push("Min file size is larger than max file size"@)
            } else {
                w3
            }
        },
        _ => Seq::<Seq<char>>::empty(),
    }
}

/// Assesses a model configuration.  The caller reports what it found on
/// disk: how loading the file went, whether the configured model file and
/// models directory exist, and which fallback models are missing.  The
/// result is valid exactly when there are no errors.
pub fn validate_model_config(
    source: &ConfigSource,
    config_path: &str,
    model_file_exists: bool,
    model_dir_exists: bool,
    missing_fallbacks: &Vec<String>,
    checked_at: String,
) -> (v: ValidationStatus)
    ensures
        v.validator@ == "rust_validator"@,
        v.validation_time == checked_at,
        v.errors.deep_view() == expected_errors(*source, config_path@, model_file_exists),
        v.warnings.deep_view() == expected_warnings(
            *source,
            model_dir_exists,
            missing_fallbacks.deep_view(),
        ),
        v.is_valid == (v.errors@.len() == 0),
{
    let mut errors: Vec<String> = Vec::new();
    let mut warnings: Vec<String> = Vec::new();
    match source {
        ConfigSource::Missing => {
            let mut m = String::from_str("Configuration file not found: ");
            m.append(config_path);
            errors.push(m);
        },
        ConfigSource::Unreadable(e) => {
            let mut m = String::from_str("Failed to read config file: ");
            m.append(e.as_str());
            errors.push(m);
        },
        ConfigSource::Unparsable(e) => {
            let mut m = String::from_str("Invalid JSON format: ");
            m.append(e.as_str());
            errors.push(m);
        },
        ConfigSource::Parsed(cfg) => {
            if !cfg.model_path.as_str().is_empty() && !model_file_exists {
                let mut m = String::from_str("Model file not found: ");
                m.append(cfg.model_path.as_str());
                errors.push(m);
            }
            if !model_dir_exists {
                let mut m = String::from_str("Model directory not found: ");
                m.append(cfg.model_directory.as_str());
                warnings.push(m);
            }
            if missing_fallbacks.len() > 0 {
                let mut m = String::from_str("Some fallback models not found: ");
                let joined = join_with_commas(missing_fallbacks);
                m.append(joined.as_str());
                warnings.push(m);
            }
            if cfg.model_preferences.max_file_size_gb == 0 {
                warnings.push(String::from_str("Max file size is 0, may be too restrictive"));
            }
            if (cfg.model_preferences.min_file_size_mb as u128) > (
            cfg.model_preferences.max_file_size_gb as u128) * 1024 {
                warnings.push(String::from_str("Min file size is larger than max file size"));
            }
        },
    }
    let is_valid = errors.len() == 0;
    proof {
        assert(errors.deep_view() =~= expected_errors(*source, config_path@, model_file_exists));
        assert(warnings.deep_view() =~= expected_warnings(
            *source,
            model_dir_exists,
            missing_fallbacks.deep_view(),
        ));
    }
    ValidationStatus {
        is_valid,
        validation_time: checked_at,
        validator: String::from_str("rust_validator"),
        errors,
        warnings,
    }
}

} // verus!
