use vstd::prelude::*;
use crate::clock::{utc_now, now_rfc3339, Timestamp};
use crate::error::{is_internal_error, is_not_found, is_validation_error, AppError};
use crate::ids::{is_uuid_v4_text, new_uuid};
use crate::json::{
    json_f64_field_bits, json_string_object_pretty, json_text_field, json_u64_field, opt_text,
    read_f64_field_bits, read_text_field, read_u64_field, texts, write_string_members,
};
use crate::text::{concat, join_path, path_join};

verus! {

/// Properties of a voice model read from its configuration.
#[derive(Debug, Clone)]
pub struct ModelMetadata {
    pub sample_rate: u32,
    pub language: String,
    /// IEEE 754 bits of the duration in seconds, when the configuration gives one.
    pub duration_bits: Option<u64>,
    pub is_loaded: bool,
}

/// A voice model found in the models directory.
#[derive(Debug, Clone)]
pub struct VoiceModel {
    pub id: String,
    pub name: String,
    pub description: String,
    pub model_path: String,
    pub index_path: Option<String>,
    pub emod_path: Option<String>,
    pub created_at: Timestamp,
    pub updated_at: Timestamp,
    pub file_size: u64,
    pub metadata: ModelMetadata,
}

/// The models found in the models directory and their number.
#[derive(Debug, Clone)]
pub struct ModelListResponse {
    pub models: Vec<VoiceModel>,
    pub total: usize,
}

/// What was found on disk about one entry of the models directory.
#[derive(Debug, Clone)]
pub struct ModelDirProbe {
    /// The entry's name in the models directory, as text.
    pub entry_name: String,
    /// The entry's name, when it is valid text.
    pub dir_name: Option<String>,
    pub is_dir: bool,
    /// `model.pth` exists in the entry.
    pub has_model_file: bool,
    /// The text of `config.json`, when that file exists.
    pub config_text: Option<String>,
    /// The size in bytes of `model.pth`.
    pub file_size: u64,
    /// `features.index` exists in the entry.
    pub has_index: bool,
    /// `emotion.emod` exists in the entry.
    pub has_emod: bool,
}

/// The members of a model's configuration that describe it.
#[derive(Debug, Clone)]
pub struct ModelConfig {
    pub name: Option<String>,
    pub description: Option<String>,
    pub sample_rate: Option<u64>,
    pub language: Option<String>,
    /// IEEE 754 bits of the duration in seconds.
    pub duration_bits: Option<u64>,
}

/// A request to store a new model under a name, with a description.
#[derive(Debug, Clone)]
pub struct UploadModelRequest {
    pub name: String,
    pub description: String,
}

/// Where a new model is stored.
#[derive(Debug, Clone)]
pub struct UploadPlan {
    pub model_id: String,
    pub model_dir: String,
    pub model_path: String,
    pub config_path: String,
}

/// Manages the voice models stored under one directory.
pub struct ModelService {
    pub models_dir: String,
}

/// The string member `key` of a probe's configuration.
pub open spec fn config_text_field(probe: ModelDirProbe, key: Seq<char>) -> Option<Seq<char>> {
    match probe.config_text {
        Some(t) => json_text_field(t@, key),
        None => None,
    }
}

/// The unsigned integer member `key` of a probe's configuration.
pub open spec fn config_u64_field(probe: ModelDirProbe, key: Seq<char>) -> Option<u64> {
    match probe.config_text {
        Some(t) => json_u64_field(t@, key),
        None => None,
    }
}

/// The bits of the number member `key` of a probe's configuration.
pub open spec fn config_f64_bits_field(probe: ModelDirProbe, key: Seq<char>) -> Option<u64> {
    match probe.config_text {
        Some(t) => json_f64_field_bits(t@, key),
        None => None,
    }
}

/// A text member of the configuration, or `default` when there is none.
pub open spec fn text_or_default(v: Option<Seq<char>>, default: Seq<char>) -> Seq<char> {
    match v {
        Some(t) => t,
        None => default,
    }
}

/// The path of the probed entry of the models directory `dir`.
pub open spec fn entry_path(dir: Seq<char>, probe: ModelDirProbe) -> Seq<char> {
    path_join(dir, probe.entry_name@)
}

/// The path of a file named `file` in the probed entry of the models
/// directory `dir`, when `present`.
pub open spec fn file_in(dir: Seq<char>, probe: ModelDirProbe, present: bool, file: Seq<char>) -> Option<Seq<char>> {
    if present {
        Some(path_join(entry_path(dir, probe), file))
    } else {
        None
    }
}

/// `m` is the record of the model found by `probe` in the models directory
/// `dir`, whose configuration gives these members: the name defaults to the directory's own name, else
/// `unknown`; the description to nothing; the sample rate, cut to its low
/// 32 bits, to 22050; the language to `zh`.
pub open spec fn model_fits(
    m: VoiceModel,
    dir: Seq<char>,
    probe: ModelDirProbe,
    name: Option<Seq<char>>,
    description: Option<Seq<char>>,
    sample_rate: Option<u64>,
    language: Option<Seq<char>>,
    duration_bits: Option<u64>,
) -> bool {
    &&& is_uuid_v4_text(m.id@)
    &&& model_record(m, dir, probe, name, description, sample_rate, language, duration_bits, m.id@, m.created_at, m.updated_at)
}

/// `m` is the record, under identifier `id` and stamped `created_at` and
/// `updated_at`, of the model found by `probe` in the models directory `dir`
/// whose configuration gives these members.
pub open spec fn model_record(
    m: VoiceModel,
    dir: Seq<char>,
    probe: ModelDirProbe,
    name: Option<Seq<char>>,
    description: Option<Seq<char>>,
    sample_rate: Option<u64>,
    language: Option<Seq<char>>,
    duration_bits: Option<u64>,
    id: Seq<char>,
    created_at: Timestamp,
    updated_at: Timestamp,
) -> bool {
    &&& m.id@ == id
    &&& m.created_at == created_at
    &&& m.updated_at == updated_at
    &&& m.name@ == text_or_default(name, text_or_default(opt_text(probe.dir_name), "unknown"@))
    &&& m.description@ == text_or_default(description, ""@)
    &&& m.model_path@ == path_join(entry_path(dir, probe), "model.pth"@)
    &&& opt_text(m.index_path) == file_in(dir, probe, probe.has_index, "features.index"@)
    &&& opt_text(m.emod_path) == file_in(dir, probe, probe.has_emod, "emotion.emod"@)
    &&& m.file_size == probe.file_size
    &&& m.metadata.sample_rate == match sample_rate {
        Some(n) => (n % 0x1_0000_0000) as u32,
        None => 22050u32,
    }
    &&& m.metadata.language@ == text_or_default(language, "zh"@)
    &&& m.metadata.duration_bits == duration_bits
    &&& !m.metadata.is_loaded
}

/// `m` is the record of the model found by `probe` in the models directory
/// `dir`, configured by the probed configuration text.
pub open spec fn is_model_of(m: VoiceModel, dir: Seq<char>, probe: ModelDirProbe) -> bool {
    model_fits(
        m,
        dir,
        probe,
        config_text_field(probe, "name"@),
        config_text_field(probe, "description"@),
        config_u64_field(probe, "sample_rate"@),
        config_text_field(probe, "language"@),
        config_f64_bits_field(probe, "duration"@),
    )
}

/// `c` holds the members read from a probe's configuration.
pub open spec fn is_config_of(c: ModelConfig, probe: ModelDirProbe) -> bool {
    &&& opt_text(c.name) == config_text_field(probe, "name"@)
    &&& opt_text(c.description) == config_text_field(probe, "description"@)
    &&& c.sample_rate == config_u64_field(probe, "sample_rate"@)
    &&& opt_text(c.language) == config_text_field(probe, "language"@)
    &&& c.duration_bits == config_f64_bits_field(probe, "duration"@)
}

/// The entries of the models directory that hold a model.
pub open spec fn model_dirs(probes: Seq<ModelDirProbe>) -> Seq<ModelDirProbe> {
    probes.filter(|p: ModelDirProbe| p.is_dir && p.has_model_file)
}

/// The member names of a model's configuration file, in the order written.
pub open spec fn config_keys() -> Seq<Seq<char>> {
    seq!["name"@, "description"@, "created_at"@]
}

/// `res` is the outcome of writing the configuration of a model named
/// `name`, described by `description`, created at `created_at`.
pub open spec fn is_config_text_result(res: Result<String, AppError>, name: Seq<char>, description: Seq<char>, created_at: Seq<char>) -> bool {
    match json_string_object_pretty(config_keys(), seq![name, description, created_at]) {
        Ok(t) => res matches Ok(s) && s@ == t,
        Err(t) => res matches Err(e) && is_validation_error(e, t),
    }
}

/// `i` is the first position of a model with identifier `id`.
pub open spec fn first_model_at(models: Seq<VoiceModel>, id: Seq<char>, i: int) -> bool {
    &&& 0 <= i < models.len()
    &&& models[i].id@ == id
    &&& forall|j: int| 0 <= j < i ==> (#[trigger] models[j]).id@ != id
}

/// Some model has identifier `id`.
pub open spec fn has_model(models: Seq<VoiceModel>, id: Seq<char>) -> bool {
    exists|i: int| 0 <= i < models.len() && (#[trigger] models[i]).id@ == id
}

fn optional_file(dir: &str, present: bool, file: &str) -> (res: Option<String>)
    ensures
        opt_text(res) == (if present { Some(path_join(dir@, file@)) } else { None::<Seq<char>> }),
{
    if present {
        Some(join_path(dir, file))
    } else {
        None
    }
}

fn text_or(v: Option<String>, default: &str) -> (res: String)
    ensures
        res@ == text_or_default(opt_text(v), default@),
{
    match v {
        Some(t) => t,
        None => String::from_str(default),
    }
}

impl ModelService {
    /// A service for the models stored under `models_dir`.
    pub fn new(models_dir: &str) -> (res: ModelService)
        ensures
            res.models_dir@ == models_dir@,
    {
        ModelService { models_dir: String::from_str(models_dir) }
    }

    /// Reads the describing members of a probed directory's configuration.
    pub fn read_model_config(probe: &ModelDirProbe) -> (res: ModelConfig)
        ensures
            is_config_of(res, *probe),
    {
        match &probe.config_text {
            Some(t) => ModelConfig {
                name: read_text_field(t.as_str(), "name"),
                description: read_text_field(t.as_str(), "description"),
                sample_rate: read_u64_field(t.as_str(), "sample_rate"),
                language: read_text_field(t.as_str(), "language"),
                duration_bits: read_f64_field_bits(t.as_str(), "duration"),
            },
            None => ModelConfig { name: None, description: None, sample_rate: None, language: None, duration_bits: None },
        }
    }

    /// The record of the model in a probed directory described by `config`,
    /// or nothing when the directory holds no `model.pth`.
    pub fn model_from_config(&self, probe: &ModelDirProbe, config: ModelConfig) -> (res: Option<VoiceModel>)
        ensures
            match res {
                Some(m) => probe.has_model_file && model_fits(
                    m,
                    self.models_dir@,
                    *probe,
                    opt_text(config.name),
                    opt_text(config.description),
                    config.sample_rate,
                    opt_text(config.language),
                    config.duration_bits,
                ),
                None => !probe.has_model_file,
            },
    {
        if !probe.has_model_file {
            return None;
        }
        let id = new_uuid();
        let created_at = utc_now();
        let updated_at = utc_now();
        Some(self.model_record_at(probe, config, id, created_at, updated_at))
    }

    /// The record, under identifier `id` and stamped `created_at` and
    /// `updated_at`, of the model in a probed directory described by `config`.
    pub fn model_record_at(
        &self,
        probe: &ModelDirProbe,
        config: ModelConfig,
        id: String,
        created_at: Timestamp,
        updated_at: Timestamp,
    ) -> (res: VoiceModel)
        ensures
            model_record(
                res,
                self.models_dir@,
                *probe,
                opt_text(config.name),
                opt_text(config.description),
                config.sample_rate,
                opt_text(config.language),
                config.duration_bits,
                id@,
                created_at,
                updated_at,
            ),
            res.model_path@ == path_join(path_join(self.models_dir@, probe.entry_name@), "model.pth"@),
            probe.has_index ==> (res.index_path matches Some(p) && p@ == path_join(path_join(self.models_dir@, probe.entry_name@), "features.index"@)),
            !probe.has_index ==> res.index_path is None,
            probe.has_emod ==> (res.emod_path matches Some(p) && p@ == path_join(path_join(self.models_dir@, probe.entry_name@), "emotion.emod"@)),
            !probe.has_emod ==> res.emod_path is None,
    {
        let dir_name = match &probe.dir_name {
            Some(n) => n.clone(),
            None => String::from_str("unknown"),
        };
        let name = match config.name {
            Some(n) => n,
            None => dir_name,
        };
        let description = text_or(config.description, "");
        let sample_rate: u32 = match config.sample_rate {
            Some(n) => {
                assert((n as u32) == (n % 0x1_0000_0000) as u32) by (bit_vector);
                n as u32
            },
            None => 22050,
        };
        let language = text_or(config.language, "zh");
        let path = join_path(self.models_dir.as_str(), probe.entry_name.as_str());
        VoiceModel {
            id,
            name,
            description,
            model_path: join_path(path.as_str(), "model.pth"),
            index_path: optional_file(path.as_str(), probe.has_index, "features.index"),
            emod_path: optional_file(path.as_str(), probe.has_emod, "emotion.emod"),
            created_at,
            updated_at,
            file_size: probe.file_size,
            metadata: ModelMetadata { sample_rate, language, duration_bits: config.duration_bits, is_loaded: false },
        }
    }

    /// The record of the model in a probed directory, or nothing when the
    /// directory holds no `model.pth`.
    pub fn load_model_from_dir(&self, probe: &ModelDirProbe) -> (res: Option<VoiceModel>)
        ensures
            match res {
                Some(m) => probe.has_model_file && is_model_of(m, self.models_dir@, *probe),
                None => !probe.has_model_file,
            },
    {
        if !probe.has_model_file {
            return None;
        }
        let config = Self::read_model_config(probe);
        self.model_from_config(probe, config)
    }

    /// The models held by the probed entries of the models directory, in
    /// the order of the entries; entries that are not directories, and
    /// directories without `model.pth`, hold none.
    pub fn list_models(&self, probes: &Vec<ModelDirProbe>) -> (res: ModelListResponse)
        ensures
            res.total == res.models@.len(),
            res.models@.len() == model_dirs(probes@).len(),
            forall|k: int| 0 <= k < res.models@.len() ==> is_model_of(#[trigger] res.models@[k], self.models_dir@, model_dirs(probes@)[k]),
    {
        let mut models: Vec<VoiceModel> = Vec::new();
        let mut i: usize = 0;
        while i < probes.len()
            invariant
                i <= probes@.len(),
                models@.len() == model_dirs(probes@.take(i as int)).len(),
                forall|k: int| 0 <= k < models@.len() ==> is_model_of(#[trigger] models@[k], self.models_dir@, model_dirs(probes@.take(i as int))[k]),
            decreases probes@.len() - i,
        {
            let probe = &probes[i];
            proof {
                reveal_with_fuel(Seq::<_>::filter, 1);
                assert(probes@.take(i + 1).drop_last() =~= probes@.take(i as int));
            }
            if probe.is_dir {
                match self.load_model_from_dir(probe) {
                    Some(m) => {
                        models.push(m);
                    },
                    None => {},
                }
            }
            i = i + 1;
        }
        proof {
            assert(probes@.take(probes@.len() as int) =~= probes@);
        }
        let total = models.len();
        ModelListResponse { models, total }
    }

    /// The first model of a listing with identifier `model_id`, or `NotFound`.
    pub fn get_model(&self, listing: ModelListResponse, model_id: &str) -> (res: Result<VoiceModel, AppError>)
        ensures
            match res {
                Ok(m) => exists|i: int| first_model_at(listing.models@, model_id@, i) && m == listing.models@[i],
                Err(e) => !has_model(listing.models@, model_id@) && is_not_found(e, "Model not found: "@ + model_id@),
            },
    {
        let target = String::from_str(model_id);
        let mut models = listing.models;
        let ghost all = models@;
        let mut i: usize = 0;
        while i < models.len()
            invariant
                models@ == all,
                all == listing.models@,
                target@ == model_id@,
                i <= models@.len(),
                forall|j: int| 0 <= j < i ==> (#[trigger] all[j]).id@ != model_id@,
            decreases models@.len() - i,
        {
            if models[i].id == target {
                proof {
                    assert(first_model_at(all, model_id@, i as int));
                }
                let m = models.remove(i);
                return Ok(m);
            }
            i = i + 1;
        }
        Err(AppError::NotFound(concat("Model not found: ", model_id)))
    }

    /// The model file of the first model of a listing with identifier `model_id`.
    pub fn get_model_path(&self, listing: ModelListResponse, model_id: &str) -> (res: Result<String, AppError>)
        ensures
            match res {
                Ok(p) => exists|i: int| first_model_at(listing.models@, model_id@, i) && p == listing.models@[i].model_path,
                Err(e) => !has_model(listing.models@, model_id@) && is_not_found(e, "Model not found: "@ + model_id@),
            },
    {
        let model = self.get_model(listing, model_id)?;
        Ok(model.model_path)
    }

    /// The directory of the model `model_id`.
    pub fn model_dir(&self, model_id: &str) -> (res: String)
        ensures
            res@ == path_join(self.models_dir@, model_id@),
    {
        join_path(self.models_dir.as_str(), model_id)
    }

    /// Where a new model goes: a fresh identifier, its directory, and the
    /// model and configuration files in it.
    pub fn upload_plan(&self) -> (res: UploadPlan)
        ensures
            is_uuid_v4_text(res.model_id@),
            res.model_dir@ == path_join(self.models_dir@, res.model_id@),
            res.model_path@ == path_join(res.model_dir@, "model.pth"@),
            res.config_path@ == path_join(res.model_dir@, "config.json"@),
    {
        let model_id = new_uuid();
        let model_dir = self.model_dir(model_id.as_str());
        let model_path = join_path(model_dir.as_str(), "model.pth");
        let config_path = join_path(model_dir.as_str(), "config.json");
        UploadPlan { model_id, model_dir, model_path, config_path }
    }

    /// The configuration text of a new model, stamped with the current time;
    /// a failure to write it is a `ValidationError` carrying the failure's text.
    pub fn upload_config_text(&self, name: &str, description: &str) -> (res: Result<String, AppError>)
        ensures
            exists|created_at: Seq<char>| {
                &&& created_at.len() >= 6
                &&& created_at.subrange(created_at.len() - 6, created_at.len() as int) == "+00:00"@
                &&& is_config_text_result(res, name@, description@, created_at)
            },
    {
        let created_at = now_rfc3339();
        Self::upload_config_text_at(name, description, created_at.as_str())
    }

    /// The configuration text of a new model created at `created_at`: the
    /// members `name`, `description` and `created_at`; a failure to write it
    /// is a `ValidationError` carrying the failure's text.
    pub fn upload_config_text_at(name: &str, description: &str, created_at: &str) -> (res: Result<String, AppError>)
        ensures
            is_config_text_result(res, name@, description@, created_at@),
    {
        let mut keys: Vec<String> = Vec::new();
        keys.push(String::from_str("name"));
        keys.push(String::from_str("description"));
        keys.push(String::from_str("created_at"));
        let mut values: Vec<String> = Vec::new();
        values.push(String::from_str(name));
        values.push(String::from_str(description));
        values.push(String::from_str(created_at));
        proof {
            assert(texts(keys@) =~= config_keys());
            assert(texts(values@) =~= seq![name@, description@, created_at@]);
        }
        Self::config_write_outcome(write_string_members(&keys, &values))
    }

    /// The configuration text written, or the failure to write it as a
    /// `ValidationError` carrying the failure's text.
    pub fn config_write_outcome(written: Result<String, String>) -> (res: Result<String, AppError>)
        ensures
            match written {
                Ok(t) => res matches Ok(s) && s@ == t@,
                Err(t) => res matches Err(e) && is_validation_error(e, t@),
            },
    {
        match written {
            Ok(text) => Ok(text),
            Err(msg) => Err(AppError::ValidationError(msg)),
        }
    }

    /// The record of a model just stored, or an `InternalError` when its
    /// directory holds no model file.
    pub fn upload_model(&self, probe: &ModelDirProbe) -> (res: Result<VoiceModel, AppError>)
        ensures
            match res {
                Ok(m) => probe.has_model_file && is_model_of(m, self.models_dir@, *probe),
                Err(e) => !probe.has_model_file && is_internal_error(e, "Failed to load uploaded model"@),
            },
    {
        match self.load_model_from_dir(probe) {
            Some(m) => Ok(m),
            None => Err(AppError::InternalError(String::from_str("Failed to load uploaded model"))),
        }
    }

    /// The directory to remove to delete model `model_id`, or `NotFound` when
    /// that directory does not exist.
    pub fn delete_model(&self, model_id: &str, dir_exists: bool) -> (res: Result<String, AppError>)
        ensures
            match res {
                Ok(p) => dir_exists && p@ == path_join(self.models_dir@, model_id@),
                Err(e) => !dir_exists && is_not_found(e, "Model not found: "@ + model_id@),
            },
    {
        if !dir_exists {
            return Err(AppError::NotFound(concat("Model not found: ", model_id)));
        }
        Ok(self.model_dir(model_id))
    }

    /// The file to which the emotion description of model `model_id` is
    /// written, or `NotFound` when the model's directory does not exist.
    pub fn save_emod(&self, model_id: &str, dir_exists: bool) -> (res: Result<String, AppError>)
        ensures
            match res {
                Ok(p) => dir_exists && p@ == path_join(path_join(self.models_dir@, model_id@), "emotion.emod"@),
                Err(e) => !dir_exists && is_not_found(e, "Model not found: "@ + model_id@),
            },
    {
        if !dir_exists {
            return Err(AppError::NotFound(concat("Model not found: ", model_id)));
        }
        let dir = self.model_dir(model_id);
        Ok(join_path(dir.as_str(), "emotion.emod"))
    }

    /// The emotion description file of the first model of a listing with
    /// identifier `model_id`; `NotFound` when there is no such model or it
    /// has no description file.
    pub fn load_emod(&self, listing: ModelListResponse, model_id: &str) -> (res: Result<String, AppError>)
        ensures
            match res {
                Ok(p) => exists|i: int| first_model_at(listing.models@, model_id@, i)
                    && listing.models@[i].emod_path == Some(p),
                Err(e) => {
                    ||| !has_model(listing.models@, model_id@) && is_not_found(e, "Model not found: "@ + model_id@)
                    ||| exists|i: int| first_model_at(listing.models@, model_id@, i)
                        && listing.models@[i].emod_path is None
                        && is_not_found(e, "EMOD file not found"@)
                },
            },
    {
        let model = self.get_model(listing, model_id)?;
        match model.emod_path {
            Some(p) => Ok(p),
            None => Err(AppError::NotFound(String::from_str("EMOD file not found"))),
        }
    }
}

} // verus!
