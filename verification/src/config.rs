use vstd::prelude::*;
use vstd::utf8::encode_utf8;
use crate::text::{concat, concat_decimal, decimal, join_path, parse_unsigned, parse_unsigned_spec, path_join};

verus! {

/// Settings of speech synthesis.
#[derive(Debug, Clone)]
pub struct TTSConfig {
    pub default_sample_rate: u32,
    pub default_format: String,
    pub max_text_length: usize,
    pub max_segment_length: usize,
    pub output_dir: String,
}

/// Settings of the whole service.
#[derive(Debug, Clone)]
pub struct AppConfig {
    pub server_host: String,
    pub server_port: u16,
    pub models_dir: String,
    pub data_dir: String,
    pub output_dir: String,
    pub training_dir: String,
    pub db_path: String,
    pub max_upload_size: usize,
    pub cache_size: usize,
    pub tts_config: TTSConfig,
}

/// The text of a setting, or the default text when the setting is absent.
pub open spec fn setting_or(value: Option<String>, default: Seq<char>) -> Seq<char> {
    match value {
        Some(v) => v@,
        None => default,
    }
}

/// A numeric setting: the value its text parses to, or `default` when the
/// setting is absent or its text does not parse.
pub open spec fn number_setting(value: Option<String>, max: nat, default: nat) -> nat {
    match value {
        Some(v) => match parse_unsigned_spec(encode_utf8(v@), max) {
            Some(n) => n,
            None => default,
        },
        None => default,
    }
}

fn text_or(value: Option<String>, default: &str) -> (res: String)
    ensures
        res@ == setting_or(value, default@),
{
    match value {
        Some(v) => v,
        None => String::from_str(default),
    }
}

fn number_or(value: &Option<String>, max: u64, default: u64) -> (res: u64)
    requires
        default <= max,
    ensures
        res as nat == number_setting(*value, max as nat, default as nat),
        res <= max,
{
    match value {
        Some(v) => match parse_unsigned(v.as_str(), max) {
            Some(n) => n,
            None => default,
        },
        None => default,
    }
}

impl AppConfig {
    /// Builds the configuration from the settings given by the environment
    /// (`SERVER_HOST`, `SERVER_PORT`, `MODELS_DIR`, `DATA_DIR`,
    /// `MAX_UPLOAD_SIZE`, `CACHE_SIZE`), each absent when it is not set.
    pub fn from_env(
        server_host: Option<String>,
        server_port: Option<String>,
        models_dir: Option<String>,
        data_dir: Option<String>,
        max_upload_size: Option<String>,
        cache_size: Option<String>,
    ) -> (res: AppConfig)
        ensures
            res.server_host@ == setting_or(server_host, "0.0.0.0"@),
            res.server_port as nat == number_setting(server_port, 65535, 8080),
            res.models_dir@ == setting_or(models_dir, "./models"@),
            res.data_dir@ == setting_or(data_dir, "./data"@),
            res.output_dir@ == path_join(res.data_dir@, "audio"@),
            res.training_dir@ == path_join(res.data_dir@, "training"@),
            res.db_path@ == path_join(res.data_dir@, "annotations.db"@),
            res.max_upload_size as nat == number_setting(max_upload_size, usize::MAX as nat, 100),
            res.cache_size as nat == number_setting(cache_size, usize::MAX as nat, 10),
            res.tts_config.default_sample_rate == 22050,
            res.tts_config.default_format@ == "wav"@,
            res.tts_config.max_text_length == 10000,
            res.tts_config.max_segment_length == 500,
            res.tts_config.output_dir@ == res.output_dir@,
    {
        let server_host = text_or(server_host, "0.0.0.0");
        let server_port = number_or(&server_port, 65535, 8080) as u16;
        let models_dir = text_or(models_dir, "./models");
        let data_dir = text_or(data_dir, "./data");
        let output_dir = join_path(data_dir.as_str(), "audio");
        let training_dir = join_path(data_dir.as_str(), "training");
        let db_path = join_path(data_dir.as_str(), "annotations.db");
        let max_upload_size = number_or(&max_upload_size, usize::MAX as u64, 100) as usize;
        let cache_size = number_or(&cache_size, usize::MAX as u64, 10) as usize;
        let tts_config = TTSConfig {
            default_sample_rate: 22050,
            default_format: String::from_str("wav"),
            max_text_length: 10000,
            max_segment_length: 500,
            output_dir: output_dir.clone(),
        };
        AppConfig {
            server_host,
            server_port,
            models_dir,
            data_dir,
            output_dir,
            training_dir,
            db_path,
            max_upload_size,
            cache_size,
            tts_config,
        }
    }

    /// The address the server listens on: the host, a colon, and the port in decimal.
    pub fn server_addr(&self) -> (res: String)
        ensures
            res@ == self.server_host@ + ":"@ + decimal(self.server_port as nat),
    {
        let head = concat(self.server_host.as_str(), ":");
        concat_decimal(head.as_str(), self.server_port as u64)
    }
}

} // verus!
