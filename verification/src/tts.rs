use vstd::prelude::*;
use vstd::utf8::encode_utf8;
use crate::cache::{
    cache_capacity, cache_contains, cache_put, cache_wf, cached_keys, keys_after_put,
    lemma_put_keeps_wf, new_name_cache, NameCache,
};
use crate::config::TTSConfig;
use crate::error::{is_internal_error, is_validation_error, AppError};
use crate::ids::{is_uuid_v4_text, new_uuid};
use crate::text::{concat, concat_decimal, decimal, join_path, path_join};

verus! {

/// A request to speak a text with a voice model.
#[derive(Debug, Clone)]
pub struct SynthesizeRequest {
    pub text: String,
    pub model_path: String,
    pub emod_path: Option<String>,
    pub sample_rate: Option<u32>,
    pub output_format: Option<String>,
}

/// Where and how a synthesis writes its audio.
#[derive(Debug, Clone)]
pub struct SynthesisPlan {
    pub audio_id: String,
    pub output_path: String,
    pub sample_rate: u32,
    pub format: String,
}

/// Speech synthesis: the settings, the output directory and the models
/// already loaded, at most ten, the most recently loaded first.
pub struct TTSService {
    loaded_models: NameCache,
    output_dir: String,
    config: TTSConfig,
}

/// The number of bytes of the UTF-8 encoding of a text held in memory
/// (such a number always fits in `usize`).
pub open spec fn byte_length(s: Seq<char>) -> usize {
    encode_utf8(s).len() as usize
}

/// The message of a text longer than `max` bytes.
pub open spec fn too_long_message(max: usize) -> Seq<char> {
    "Text length exceeds maximum allowed length of "@ + decimal(max as nat) + " characters"@
}

/// `plan` writes audio `format` at `sample_rate` to a fresh file in `dir`.
pub open spec fn is_plan(plan: SynthesisPlan, dir: Seq<char>, format: Seq<char>, sample_rate: u32) -> bool {
    &&& is_uuid_v4_text(plan.audio_id@)
    &&& plan.format@ == format
    &&& plan.sample_rate == sample_rate
    &&& plan.output_path@ == path_join(dir, plan.audio_id@ + "."@ + format)
}

impl TTSService {
    /// The settings of synthesis.
    pub closed spec fn settings(&self) -> TTSConfig {
        self.config
    }

    /// Where audio is written.
    pub closed spec fn out_dir(&self) -> Seq<char> {
        self.output_dir@
    }

    /// The models loaded, the most recently loaded first.
    pub closed spec fn loaded(&self) -> Seq<Seq<char>> {
        cached_keys(self.loaded_models)
    }

    /// How many loaded models are remembered at most.
    pub closed spec fn capacity(&self) -> nat {
        cache_capacity(self.loaded_models)
    }

    /// The loaded models are distinct and within the capacity.
    #[verifier::type_invariant]
    spec fn wf(&self) -> bool {
        cache_wf(self.loaded_models)
    }

    /// A service with these settings, writing audio to their output
    /// directory, with no model loaded and room for ten.
    pub fn new(config: TTSConfig) -> (res: TTSService)
        ensures
            res.loaded() == Seq::<Seq<char>>::empty(),
            res.capacity() == 10,
            res.out_dir() == config.output_dir@,
            res.settings() == config,
    {
        let output_dir = config.output_dir.clone();
        TTSService { loaded_models: new_name_cache(10), output_dir, config }
    }

    /// `InternalError` unless the synthesis bridge is ready.
    pub fn require_bridge(bridge_ready: bool) -> (res: Result<(), AppError>)
        ensures
            bridge_ready ==> res is Ok,
            !bridge_ready ==> (res matches Err(e) && is_internal_error(e, "TTS bridge not initialized"@)),
    {
        if bridge_ready {
            Ok(())
        } else {
            Err(AppError::InternalError(String::from_str("TTS bridge not initialized")))
        }
    }

    /// Checks a synthesis request and plans where its audio goes: the text
    /// must not be empty nor longer than the maximum number of bytes, and
    /// the bridge must be ready. Format and sample rate default to the settings.
    pub fn synthesize(&self, request: &SynthesizeRequest, bridge_ready: bool) -> (res: Result<SynthesisPlan, AppError>)
        ensures
            request.text@.len() == 0 ==> (res matches Err(e) && is_validation_error(e, "Text cannot be empty"@)),
            request.text@.len() > 0 && byte_length(request.text@) > self.settings().max_text_length ==>
                (res matches Err(e) && is_validation_error(e, too_long_message(self.settings().max_text_length))),
            request.text@.len() > 0 && byte_length(request.text@) <= self.settings().max_text_length && !bridge_ready ==>
                (res matches Err(e) && is_internal_error(e, "TTS bridge not initialized"@)),
            request.text@.len() > 0 && byte_length(request.text@) <= self.settings().max_text_length && bridge_ready ==>
                (res matches Ok(plan) && is_plan(
                    plan,
                    self.out_dir(),
                    match request.output_format {
                        Some(f) => f@,
                        None => self.settings().default_format@,
                    },
                    match request.sample_rate {
                        Some(r) => r,
                        None => self.settings().default_sample_rate,
                    },
                )),
    {
        if request.text.as_str().is_empty() {
            return Err(AppError::ValidationError(String::from_str("Text cannot be empty")));
        }
        if request.text.as_str().len() > self.config.max_text_length {
            let head = concat_decimal("Text length exceeds maximum allowed length of ", self.config.max_text_length as u64);
            return Err(AppError::ValidationError(concat(head.as_str(), " characters")));
        }
        let audio_id = new_uuid();
        let format = match &request.output_format {
            Some(f) => f.clone(),
            None => self.config.default_format.clone(),
        };
        let sample_rate = match request.sample_rate {
            Some(r) => r,
            None => self.config.default_sample_rate,
        };
        let file = concat(audio_id.as_str(), ".");
        let file = concat(file.as_str(), format.as_str());
        let output_path = join_path(self.output_dir.as_str(), file.as_str());
        Self::require_bridge(bridge_ready)?;
        Ok(SynthesisPlan { audio_id, output_path, sample_rate, format })
    }

    /// Plans the audio of a synthesis coloured by emotion parameters: a
    /// fresh file in the default format and sample rate; the bridge must be ready.
    pub fn synthesize_with_emotion(&self, bridge_ready: bool) -> (res: Result<SynthesisPlan, AppError>)
        ensures
            !bridge_ready ==> (res matches Err(e) && is_internal_error(e, "TTS bridge not initialized"@)),
            bridge_ready ==> (res matches Ok(plan) && is_plan(
                plan,
                self.out_dir(),
                self.settings().default_format@,
                self.settings().default_sample_rate,
            )),
    {
        let audio_id = new_uuid();
        let format = self.config.default_format.clone();
        let file = concat(audio_id.as_str(), ".");
        let file = concat(file.as_str(), format.as_str());
        let output_path = join_path(self.output_dir.as_str(), file.as_str());
        Self::require_bridge(bridge_ready)?;
        Ok(SynthesisPlan { audio_id, output_path, sample_rate: self.config.default_sample_rate, format })
    }

    /// Whether `model_path` still has to be loaded: `Ok(false)` when it is
    /// already loaded, `Ok(true)` when it is not and the bridge is ready,
    /// `InternalError` when it is not and the bridge is not ready.
    pub fn preload_model(&self, model_path: &str, bridge_ready: bool) -> (res: Result<bool, AppError>)
        ensures
            self.loaded().contains(model_path@) ==> res == Ok::<bool, AppError>(false),
            !self.loaded().contains(model_path@) && bridge_ready ==> res == Ok::<bool, AppError>(true),
            !self.loaded().contains(model_path@) && !bridge_ready ==>
                (res matches Err(e) && is_internal_error(e, "TTS bridge not initialized"@)),
    {
        if cache_contains(&self.loaded_models, model_path) {
            return Ok(false);
        }
        Self::require_bridge(bridge_ready)?;
        Ok(true)
    }

    /// Records that `model_path` was loaded: it becomes the most recently
    /// loaded model, and when no room is left the least recently loaded one
    /// is forgotten.
    pub fn mark_model_loaded(&mut self, model_path: &str)
        ensures
            final(self).loaded() == keys_after_put(old(self).loaded(), old(self).capacity(), model_path@),
            final(self).loaded()[0] == model_path@,
            final(self).loaded().contains(model_path@),
            final(self).loaded().no_duplicates(),
            final(self).loaded().len() <= final(self).capacity(),
            final(self).capacity() == old(self).capacity(),
            final(self).settings() == old(self).settings(),
            final(self).out_dir() == old(self).out_dir(),
    {
        proof {
            use_type_invariant(&*self);
            lemma_put_keeps_wf(cached_keys(self.loaded_models), cache_capacity(self.loaded_models), model_path@);
        }
        let mut cache = new_name_cache(1);
        std::mem::swap(&mut cache, &mut self.loaded_models);
        cache_put(&mut cache, String::from_str(model_path));
        self.loaded_models = cache;
    }
}

} // verus!
