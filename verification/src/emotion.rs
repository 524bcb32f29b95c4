use vstd::prelude::*;
use crate::clock::now_rfc3339;
use crate::error::{is_not_found, AppError};
use crate::ids::{is_uuid_v4_text, new_uuid};
use crate::text::{concat, join_path, path_join};

verus! {

// Every quantity below is written in thousandths: 1000 stands for 1.0.

/// A named emotion with its position in valence, arousal and dominance.
#[derive(Debug, Clone)]
pub struct EmotionPreset {
    pub id: String,
    pub name: String,
    pub description: String,
    pub valence_milli: i32,
    pub arousal_milli: i32,
    pub dominance_milli: i32,
    pub pitch_offset_milli: Option<i32>,
    pub speaking_rate_milli: Option<i32>,
}

impl EmotionPreset {
    /// A copy of the preset.
    pub fn duplicate(&self) -> (res: EmotionPreset)
        ensures
            res == *self,
    {
        EmotionPreset {
            id: self.id.clone(),
            name: self.name.clone(),
            description: self.description.clone(),
            valence_milli: self.valence_milli,
            arousal_milli: self.arousal_milli,
            dominance_milli: self.dominance_milli,
            pitch_offset_milli: self.pitch_offset_milli,
            speaking_rate_milli: self.speaking_rate_milli,
        }
    }
}

/// A point in the valence, arousal, dominance space.
#[derive(PartialEq, Eq, Structural, Clone, Copy, Debug)]
pub struct EmotionVector {
    pub valence_milli: i32,
    pub arousal_milli: i32,
    pub dominance_milli: i32,
}

/// How pitch, rate, pauses and energy of speech are shaped.
#[derive(PartialEq, Eq, Structural, Clone, Copy, Debug)]
pub struct ProsodyControl {
    pub pitch_offset_milli: i32,
    pub pitch_range_milli: i32,
    pub pitch_variation_milli: i32,
    pub speaking_rate_milli: i32,
    pub pause_duration_milli: i32,
    pub energy_level_milli: i32,
}

/// Qualities of the voice itself.
#[derive(PartialEq, Eq, Structural, Clone, Copy, Debug)]
pub struct VoiceCharacteristics {
    pub breathiness_milli: i32,
    pub roughness_milli: i32,
    pub creakiness_milli: i32,
    pub formant_shift_milli: i32,
}

/// A marker of speaking style at a kind of place in a sentence.
#[derive(Debug, Clone)]
pub struct StyleMarker {
    pub marker_type: String,
    pub pitch_curve: String,
    pub duration_factor_milli: i32,
}

/// Descriptive data of an emotion description.
#[derive(Debug, Clone)]
pub struct EMODMetadata {
    pub name: String,
    pub description: String,
    pub author: String,
    pub created_at: String,
    pub tags: Vec<String>,
}

/// An emotion description (EMOD) used to colour synthesized speech.
#[derive(Debug, Clone)]
pub struct EMODData {
    pub version: String,
    pub metadata: EMODMetadata,
    pub emotion_vector: EmotionVector,
    pub prosody_control: ProsodyControl,
    pub style_markers: Vec<StyleMarker>,
    pub voice_characteristics: VoiceCharacteristics,
}

/// A request to create an emotion description named `name`, from the
/// preset `preset_id` when one is given.
#[derive(Debug, Clone)]
pub struct CreateEmodRequest {
    pub name: String,
    pub preset_id: Option<String>,
}

/// The catalogue of presets and the directory where descriptions are stored.
/// The catalogue is the built-in one and never changes.
pub struct EmotionService {
    emotions_dir: String,
    presets: Vec<EmotionPreset>,
}

/// `p` is the preset with these values.
pub open spec fn preset_is(
    p: EmotionPreset,
    id: Seq<char>,
    name: Seq<char>,
    description: Seq<char>,
    valence: int,
    arousal: int,
    dominance: int,
    pitch_offset: int,
    speaking_rate: int,
) -> bool {
    &&& p.id@ == id
    &&& p.name@ == name
    &&& p.description@ == description
    &&& p.valence_milli == valence
    &&& p.arousal_milli == arousal
    &&& p.dominance_milli == dominance
    &&& p.pitch_offset_milli matches Some(x) && x == pitch_offset
    &&& p.speaking_rate_milli matches Some(x) && x == speaking_rate
}

/// The built-in catalogue, in this order.
pub open spec fn is_builtin_catalogue(ps: Seq<EmotionPreset>) -> bool {
    &&& ps.len() == 7
    &&& preset_is(ps[0], "neutral"@, "中性"@, "中性、平静的朗读风格"@, 0, 0, 0, 0, 1000)
    &&& preset_is(ps[1], "happy"@, "快乐"@, "快乐、积极的情绪"@, 800, 600, 300, 3000, 1100)
    &&& preset_is(ps[2], "sad"@, "悲伤"@, "悲伤、低沉的情绪"@, -700, -300, -400, -2000, 850)
    &&& preset_is(ps[3], "angry"@, "愤怒"@, "愤怒、激动的情绪"@, -500, 800, 600, 4000, 1200)
    &&& preset_is(ps[4], "calm"@, "平静"@, "平静、放松的情绪"@, 300, -400, 100, -1000, 900)
    &&& preset_is(ps[5], "excited"@, "兴奋"@, "兴奋、热情的情绪"@, 700, 900, 500, 5000, 1150)
    &&& preset_is(ps[6], "storytelling"@, "讲故事"@, "讲故事风格，富有表现力"@, 400, 200, 300, 0, 1000)
}

/// No two presets share an identifier.
pub open spec fn preset_ids_unique(ps: Seq<EmotionPreset>) -> bool {
    forall|i: int, j: int| 0 <= i < j < ps.len() ==> (#[trigger] ps[i]).id@ != (#[trigger] ps[j]).id@
}

/// The presets of the built-in catalogue have distinct identifiers.
pub proof fn lemma_builtin_ids_unique(ps: Seq<EmotionPreset>)
    requires
        is_builtin_catalogue(ps),
    ensures
        preset_ids_unique(ps),
{
    reveal_strlit("neutral");
    reveal_strlit("happy");
    reveal_strlit("sad");
    reveal_strlit("angry");
    reveal_strlit("calm");
    reveal_strlit("excited");
    reveal_strlit("storytelling");
    assert forall|i: int, j: int| 0 <= i < j < ps.len() implies (#[trigger] ps[i]).id@ != (#[trigger] ps[j]).id@ by {
        assert(ps[j].id@.len() != ps[i].id@.len() || ps[j].id@[0] != ps[i].id@[0] || ps[j].id@[1] != ps[i].id@[1]);
    }
}

/// `i` is the first position of a preset with identifier `id`.
pub open spec fn first_preset_at(ps: Seq<EmotionPreset>, id: Seq<char>, i: int) -> bool {
    &&& 0 <= i < ps.len()
    &&& ps[i].id@ == id
    &&& forall|j: int| 0 <= j < i ==> (#[trigger] ps[j]).id@ != id
}

/// Some preset has identifier `id`.
pub open spec fn has_preset(ps: Seq<EmotionPreset>, id: Seq<char>) -> bool {
    exists|i: int| 0 <= i < ps.len() && (#[trigger] ps[i]).id@ == id
}

/// `res` is the outcome of creating a description named `name`, at the time
/// written `created_at`, from the preset `preset_id` of `ps` if one is given.
pub open spec fn is_emod_result(
    ps: Seq<EmotionPreset>,
    res: Result<EMODData, AppError>,
    name: Seq<char>,
    preset_id: Option<&str>,
    created_at: Seq<char>,
) -> bool {
    match preset_id {
        Some(pid) => match res {
            Ok(emod) => exists|i: int| first_preset_at(ps, pid@, i) && is_new_emod(emod, name, vector_of(ps[i]), created_at),
            Err(e) => !has_preset(ps, pid@) && is_not_found(e, "Preset not found: "@ + pid@),
        },
        None => res matches Ok(emod) && is_new_emod(emod, name, neutral_vector(), created_at),
    }
}

/// The shaping of speech that every new description starts with.
pub open spec fn default_prosody() -> ProsodyControl {
    ProsodyControl {
        pitch_offset_milli: 0,
        pitch_range_milli: 1000,
        pitch_variation_milli: 500,
        speaking_rate_milli: 1000,
        pause_duration_milli: 1000,
        energy_level_milli: 600,
    }
}

/// The voice qualities that every description starts with.
pub open spec fn default_voice() -> VoiceCharacteristics {
    VoiceCharacteristics {
        breathiness_milli: 100,
        roughness_milli: 100,
        creakiness_milli: 50,
        formant_shift_milli: 0,
    }
}

/// `m` is the marker with these values.
pub open spec fn marker_is(m: StyleMarker, marker_type: Seq<char>, pitch_curve: Seq<char>, factor: i32) -> bool {
    &&& m.marker_type@ == marker_type
    &&& m.pitch_curve@ == pitch_curve
    &&& m.duration_factor_milli == factor
}

/// The style markers of a new description.
pub open spec fn is_default_markers(ms: Seq<StyleMarker>) -> bool {
    &&& ms.len() == 3
    &&& marker_is(ms[0], "sentence_start"@, "rise"@, 1100)
    &&& marker_is(ms[1], "sentence_end"@, "fall"@, 1200)
    &&& marker_is(ms[2], "question"@, "rise_sharp"@, 1000)
}

/// The emotion of a preset.
pub open spec fn vector_of(p: EmotionPreset) -> EmotionVector {
    EmotionVector {
        valence_milli: p.valence_milli,
        arousal_milli: p.arousal_milli,
        dominance_milli: p.dominance_milli,
    }
}

/// The neutral emotion.
pub open spec fn neutral_vector() -> EmotionVector {
    EmotionVector { valence_milli: 0, arousal_milli: 0, dominance_milli: 0 }
}

/// `t` ends with the offset `+00:00`, as every RFC 3339 time written for
/// UTC by `chrono` does.
pub open spec fn is_utc_text(t: Seq<char>) -> bool {
    t.len() >= 6 && t.subrange(t.len() - 6, t.len() as int) == "+00:00"@
}

/// `emod` is a fresh description named `name` carrying emotion `v`,
/// created at the time written `created_at`.
pub open spec fn is_new_emod(emod: EMODData, name: Seq<char>, v: EmotionVector, created_at: Seq<char>) -> bool {
    &&& emod.version@ == "1.0"@
    &&& emod.metadata.name@ == name
    &&& emod.metadata.description@ == "Auto-generated emotion: "@ + name
    &&& emod.metadata.author@ == "user"@
    &&& emod.metadata.created_at@ == created_at
    &&& emod.metadata.tags@.len() == 0
    &&& emod.emotion_vector == v
    &&& emod.prosody_control == default_prosody()
    &&& is_default_markers(emod.style_markers@)
    &&& emod.voice_characteristics == default_voice()
}

fn preset(
    id: &str,
    name: &str,
    description: &str,
    valence: i32,
    arousal: i32,
    dominance: i32,
    pitch_offset: i32,
    speaking_rate: i32,
) -> (res: EmotionPreset)
    ensures
        preset_is(res, id@, name@, description@, valence as int, arousal as int, dominance as int, pitch_offset as int, speaking_rate as int),
{
    EmotionPreset {
        id: String::from_str(id),
        name: String::from_str(name),
        description: String::from_str(description),
        valence_milli: valence,
        arousal_milli: arousal,
        dominance_milli: dominance,
        pitch_offset_milli: Some(pitch_offset),
        speaking_rate_milli: Some(speaking_rate),
    }
}

fn marker(marker_type: &str, pitch_curve: &str, factor: i32) -> (res: StyleMarker)
    ensures
        marker_is(res, marker_type@, pitch_curve@, factor),
{
    StyleMarker {
        marker_type: String::from_str(marker_type),
        pitch_curve: String::from_str(pitch_curve),
        duration_factor_milli: factor,
    }
}

impl EmotionService {
    /// The presets of the catalogue, in order.
    pub closed spec fn presets(&self) -> Seq<EmotionPreset> {
        self.presets@
    }

    /// The directory where descriptions are stored.
    pub closed spec fn dir(&self) -> Seq<char> {
        self.emotions_dir@
    }

    /// The catalogue is the built-in one.
    #[verifier::type_invariant]
    spec fn fixed_catalogue(&self) -> bool {
        is_builtin_catalogue(self.presets@)
    }

    /// A service with the built-in catalogue, storing descriptions in `emotions_dir`.
    pub fn new(emotions_dir: &str) -> (res: EmotionService)
        ensures
            res.dir() == emotions_dir@,
            is_builtin_catalogue(res.presets()),
            preset_ids_unique(res.presets()),
    {
        let mut presets: Vec<EmotionPreset> = Vec::new();
        presets.push(preset("neutral", "中性", "中性、平静的朗读风格", 0, 0, 0, 0, 1000));
        presets.push(preset("happy", "快乐", "快乐、积极的情绪", 800, 600, 300, 3000, 1100));
        presets.push(preset("sad", "悲伤", "悲伤、低沉的情绪", -700, -300, -400, -2000, 850));
        presets.push(preset("angry", "愤怒", "愤怒、激动的情绪", -500, 800, 600, 4000, 1200));
        presets.push(preset("calm", "平静", "平静、放松的情绪", 300, -400, 100, -1000, 900));
        presets.push(preset("excited", "兴奋", "兴奋、热情的情绪", 700, 900, 500, 5000, 1150));
        presets.push(preset("storytelling", "讲故事", "讲故事风格，富有表现力", 400, 200, 300, 0, 1000));
        proof {
            lemma_builtin_ids_unique(presets@);
        }
        EmotionService { emotions_dir: String::from_str(emotions_dir), presets }
    }

    /// The directory where descriptions are stored.
    pub fn emotions_dir(&self) -> (res: &str)
        ensures
            res@ == self.dir(),
    {
        self.emotions_dir.as_str()
    }

    /// All presets of the catalogue.
    pub fn list_presets(&self) -> (res: Vec<EmotionPreset>)
        ensures
            res@ == self.presets(),
            is_builtin_catalogue(res@),
    {
        proof {
            use_type_invariant(self);
        }
        let mut res: Vec<EmotionPreset> = Vec::new();
        let mut i: usize = 0;
        while i < self.presets.len()
            invariant
                i <= self.presets@.len(),
                res@ == self.presets@.take(i as int),
            decreases self.presets@.len() - i,
        {
            res.push(self.presets[i].duplicate());
            proof {
                assert(res@ =~= self.presets@.take(i + 1));
            }
            i = i + 1;
        }
        proof {
            assert(self.presets@.take(i as int) =~= self.presets@);
        }
        res
    }

    /// The preset with identifier `preset_id`, or `NotFound` when there is none.
    pub fn get_preset(&self, preset_id: &str) -> (res: Result<EmotionPreset, AppError>)
        ensures
            match res {
                Ok(p) => exists|i: int| first_preset_at(self.presets(), preset_id@, i) && p == self.presets()[i],
                Err(e) => !has_preset(self.presets(), preset_id@)
                    && is_not_found(e, "Preset not found: "@ + preset_id@),
            },
    {
        let target = String::from_str(preset_id);
        let mut i: usize = 0;
        while i < self.presets.len()
            invariant
                target@ == preset_id@,
                i <= self.presets@.len(),
                forall|j: int| 0 <= j < i ==> (#[trigger] self.presets@[j]).id@ != preset_id@,
            decreases self.presets@.len() - i,
        {
            if self.presets[i].id == target {
                let p = self.presets[i].duplicate();
                proof {
                    assert(first_preset_at(self.presets(), preset_id@, i as int));
                }
                return Ok(p);
            }
            i = i + 1;
        }
        Err(AppError::NotFound(concat("Preset not found: ", preset_id)))
    }

    /// A new emotion description named `name`, created now, carrying the
    /// emotion of the preset `preset_id` when one is given, or the neutral
    /// emotion otherwise.
    pub fn create_emod(&self, name: &str, preset_id: Option<&str>) -> (res: Result<EMODData, AppError>)
        ensures
            exists|created_at: Seq<char>| is_utc_text(created_at) && is_emod_result(self.presets(), res, name@, preset_id, created_at),
    {
        let created_at = now_rfc3339();
        let ghost t = created_at@;
        let res = self.create_emod_at(name, preset_id, created_at);
        assert(is_utc_text(t) && is_emod_result(self.presets(), res, name@, preset_id, t));
        res
    }

    /// A new emotion description named `name`, created at the time written
    /// `created_at`, carrying the emotion of the preset `preset_id` when one
    /// is given, or the neutral emotion otherwise.
    pub fn create_emod_at(&self, name: &str, preset_id: Option<&str>, created_at: String) -> (res: Result<EMODData, AppError>)
        ensures
            is_emod_result(self.presets(), res, name@, preset_id, created_at@),
    {
        let emotion_vector = match preset_id {
            Some(pid) => {
                let p = self.get_preset(pid)?;
                EmotionVector {
                    valence_milli: p.valence_milli,
                    arousal_milli: p.arousal_milli,
                    dominance_milli: p.dominance_milli,
                }
            },
            None => EmotionVector { valence_milli: 0, arousal_milli: 0, dominance_milli: 0 },
        };
        let prosody_control = ProsodyControl {
            pitch_offset_milli: 0,
            pitch_range_milli: 1000,
            pitch_variation_milli: 500,
            speaking_rate_milli: 1000,
            pause_duration_milli: 1000,
            energy_level_milli: 600,
        };
        let voice_characteristics = VoiceCharacteristics {
            breathiness_milli: 100,
            roughness_milli: 100,
            creakiness_milli: 50,
            formant_shift_milli: 0,
        };
        let metadata = EMODMetadata {
            name: String::from_str(name),
            description: concat("Auto-generated emotion: ", name),
            author: String::from_str("user"),
            created_at,
            tags: Vec::new(),
        };
        let mut style_markers: Vec<StyleMarker> = Vec::new();
        style_markers.push(marker("sentence_start", "rise", 1100));
        style_markers.push(marker("sentence_end", "fall", 1200));
        style_markers.push(marker("question", "rise_sharp", 1000));
        Ok(EMODData {
            version: String::from_str("1.0"),
            metadata,
            emotion_vector,
            prosody_control,
            style_markers,
            voice_characteristics,
        })
    }

    /// A fresh name for a stored description: `emod_` followed by a new
    /// random identifier.
    pub fn new_emod_filename() -> (res: String)
        ensures
            res@.len() == 41,
            res@.subrange(0, 5) == "emod_"@,
            is_uuid_v4_text(res@.subrange(5, 41)),
    {
        let id = new_uuid();
        let res = concat("emod_", id.as_str());
        proof {
            reveal_strlit("emod_");
            assert(res@.subrange(0, 5) =~= "emod_"@);
            assert(res@.subrange(5, 41) =~= id@);
        }
        res
    }

    /// The file in which the description named `filename` is stored:
    /// `<filename>.emod` in the emotions directory.
    pub fn emod_file_path(&self, filename: &str) -> (res: String)
        ensures
            res@ == path_join(self.dir(), filename@ + ".emod"@),
    {
        let file = concat(filename, ".emod");
        join_path(self.emotions_dir.as_str(), file.as_str())
    }
}

} // verus!
