use vstd::prelude::*;
use crate::clock::{utc_now, Timestamp};
use crate::error::{is_internal_error, AppError};
use crate::ids::{is_uuid_v4_text, new_uuid};
use crate::json::{json_line_with_member, texts, write_line_with_member};
use crate::text::{join_lines, join_with_newlines, string_views};

verus! {

// Times, confidences and probabilities are carried as the IEEE 754 bits of
// their 64-bit floating point values; they are only passed along here.

/// A request to record a new annotation of an audio file.
#[derive(Debug, Clone)]
pub struct CreateAnnotationRequest {
    pub audio_file: String,
    pub text: String,
}

/// A transcript of a stretch of audio, to be checked by a person.
#[derive(Debug, Clone)]
pub struct Annotation {
    pub id: String,
    pub audio_file: String,
    pub text: String,
    pub start_time_bits: Option<u64>,
    pub end_time_bits: Option<u64>,
    pub verified: bool,
    pub created_at: Timestamp,
    pub updated_at: Timestamp,
}

/// When a word is spoken, and how sure the recogniser is of it.
#[derive(Debug, Clone)]
pub struct WordTimestamp {
    pub word: String,
    pub start_bits: u64,
    pub end_bits: u64,
    pub probability_bits: u64,
}

/// A numbered stretch of a transcription.
#[derive(Debug, Clone)]
pub struct AnnotationSegment {
    pub id: u32,
    pub start_bits: u64,
    pub end_bits: u64,
    pub text: String,
    pub confidence_bits: u64,
    pub words: Vec<WordTimestamp>,
}

/// A transcription as reported to clients.
#[derive(Debug, Clone)]
pub struct TranscriptionResponse {
    pub transcription_id: String,
    pub text: String,
    pub segments: Vec<AnnotationSegment>,
    pub language: String,
    pub duration_bits: u64,
}

/// A stretch of speech as the recogniser reports it.
#[derive(Debug, Clone)]
pub struct Segment {
    pub start_bits: u64,
    pub end_bits: u64,
    pub text: String,
    pub confidence_bits: u64,
}

/// What the recogniser reports of one audio file.
#[derive(Debug, Clone)]
pub struct TranscriptionResult {
    pub text: String,
    pub segments: Vec<Segment>,
}

/// A stretch of speech as the recogniser reports it, each part absent when
/// the report lacks it or holds something of another kind.
#[derive(Debug, Clone)]
pub struct RawSegment {
    pub start_bits: Option<u64>,
    pub end_bits: Option<u64>,
    pub text: Option<String>,
    pub confidence_bits: Option<u64>,
}

/// What the recogniser reports of one file in a batch, each part absent
/// when the report lacks it or holds something of another kind.
#[derive(Debug, Clone)]
pub struct RawTranscription {
    pub text: Option<String>,
    pub segments: Option<Vec<RawSegment>>,
}

/// The bits of the number one.
pub const ONE_BITS: u64 = 0x3FF0_0000_0000_0000;

/// `s` is `r` with absent times taken as zero, absent text as empty and an
/// absent confidence as one.
pub open spec fn is_lenient_segment(s: Segment, r: RawSegment) -> bool {
    &&& s.start_bits == match r.start_bits { Some(b) => b, None => 0u64 }
    &&& s.end_bits == match r.end_bits { Some(b) => b, None => 0u64 }
    &&& s.text@ == match r.text { Some(t) => t@, None => ""@ }
    &&& s.confidence_bits == match r.confidence_bits { Some(b) => b, None => ONE_BITS }
}

/// All four parts of `r` are present.
pub open spec fn is_complete(r: RawSegment) -> bool {
    r.start_bits is Some && r.end_bits is Some && r.text is Some && r.confidence_bits is Some
}

/// `s` is the complete segment `r`.
pub open spec fn is_strict_segment(s: Segment, r: RawSegment) -> bool {
    &&& r.start_bits == Some(s.start_bits)
    &&& r.end_bits == Some(s.end_bits)
    &&& r.text matches Some(t) && t@ == s.text@
    &&& r.confidence_bits == Some(s.confidence_bits)
}

/// The complete segments of a report, in order.
pub open spec fn complete_segments(raws: Seq<RawSegment>) -> Seq<RawSegment> {
    raws.filter(|r: RawSegment| is_complete(r))
}

/// The segments of a single-file report, with defaults for absent parts.
pub fn lenient_segment(raw: &RawSegment) -> (res: Segment)
    ensures
        is_lenient_segment(res, *raw),
{
    proof {
        reveal_strlit("");
    }
    Segment {
        start_bits: match raw.start_bits { Some(b) => b, None => 0 },
        end_bits: match raw.end_bits { Some(b) => b, None => 0 },
        text: match &raw.text { Some(t) => t.clone(), None => String::from_str("") },
        confidence_bits: match raw.confidence_bits { Some(b) => b, None => ONE_BITS },
    }
}

/// The segments of a report, each with defaults for its absent parts.
pub fn lenient_segments(raws: &Vec<RawSegment>) -> (res: Vec<Segment>)
    ensures
        res@.len() == raws@.len(),
        forall|i: int| 0 <= i < raws@.len() ==> is_lenient_segment(#[trigger] res@[i], raws@[i]),
{
    let mut out: Vec<Segment> = Vec::new();
    let mut i: usize = 0;
    while i < raws.len()
        invariant
            i <= raws@.len(),
            out@.len() == i,
            forall|k: int| 0 <= k < i ==> is_lenient_segment(#[trigger] out@[k], raws@[k]),
        decreases raws@.len() - i,
    {
        out.push(lenient_segment(&raws[i]));
        i = i + 1;
    }
    out
}

/// The single-file report with transcript `text`, its segments taken with
/// defaults for their absent parts.
pub fn lenient_transcription(text: String, raws: &Vec<RawSegment>) -> (res: TranscriptionResult)
    ensures
        res.text@ == text@,
        res.segments@.len() == raws@.len(),
        forall|i: int| 0 <= i < raws@.len() ==> is_lenient_segment(#[trigger] res.segments@[i], raws@[i]),
{
    TranscriptionResult { text, segments: lenient_segments(raws) }
}

/// The segment `raw` when all its parts are present.
pub fn strict_segment(raw: &RawSegment) -> (res: Option<Segment>)
    ensures
        is_complete(*raw) ==> (res matches Some(s) && is_strict_segment(s, *raw)),
        !is_complete(*raw) ==> res is None,
{
    match (raw.start_bits, raw.end_bits, &raw.text, raw.confidence_bits) {
        (Some(start_bits), Some(end_bits), Some(t), Some(confidence_bits)) => Some(Segment {
            start_bits,
            end_bits,
            text: t.clone(),
            confidence_bits,
        }),
        _ => None,
    }
}

/// A batch report of one file: its transcript, empty when absent, and its
/// complete segments in order, none when the segments are absent.
pub fn strict_transcription(raw: &RawTranscription) -> (res: TranscriptionResult)
    ensures
        res.text@ == match raw.text { Some(t) => t@, None => ""@ },
        match raw.segments {
            Some(raws) => {
                &&& res.segments@.len() == complete_segments(raws@).len()
                &&& forall|k: int| 0 <= k < res.segments@.len()
                    ==> is_strict_segment(#[trigger] res.segments@[k], complete_segments(raws@)[k])
            },
            None => res.segments@.len() == 0,
        },
{
    proof {
        reveal_strlit("");
    }
    let text = match &raw.text {
        Some(t) => t.clone(),
        None => String::from_str(""),
    };
    let mut segments: Vec<Segment> = Vec::new();
    match &raw.segments {
        Some(raws) => {
            let mut i: usize = 0;
            while i < raws.len()
                invariant
                    i <= raws@.len(),
                    segments@.len() == complete_segments(raws@.take(i as int)).len(),
                    forall|k: int| 0 <= k < segments@.len()
                        ==> is_strict_segment(#[trigger] segments@[k], complete_segments(raws@.take(i as int))[k]),
                decreases raws@.len() - i,
            {
                proof {
                    reveal_with_fuel(Seq::<_>::filter, 1);
                    assert(raws@.take(i + 1).drop_last() =~= raws@.take(i as int));
                }
                match strict_segment(&raws[i]) {
                    Some(seg) => {
                        segments.push(seg);
                    },
                    None => {},
                }
                i = i + 1;
            }
            proof {
                assert(raws@.take(raws@.len() as int) =~= raws@);
            }
        },
        None => {},
    }
    TranscriptionResult { text, segments }
}

/// A request to transcribe an audio file, in a language when one is given.
#[derive(Debug, Clone)]
pub struct TranscribeRequest {
    pub audio_path: String,
    pub language: Option<String>,
}

impl TranscribeRequest {
    /// The language to transcribe in: the one given, else Chinese (`zh`).
    pub fn language_or_default(&self) -> (res: String)
        ensures
            res@ == match self.language {
                Some(l) => l@,
                None => "zh"@,
            },
    {
        match &self.language {
            Some(l) => l.clone(),
            None => String::from_str("zh"),
        }
    }
}

/// Transcription and annotation of audio kept under a data directory.
pub struct AnnotationService {
    pub data_dir: String,
}

/// `out` is segment `s` numbered `i` (modulo 2^32), with no words.
pub open spec fn is_numbered_segment(out: AnnotationSegment, s: Segment, i: int) -> bool {
    &&& out.id as int == i % 0x1_0000_0000
    &&& out.start_bits == s.start_bits
    &&& out.end_bits == s.end_bits
    &&& out.text@ == s.text@
    &&& out.confidence_bits == s.confidence_bits
    &&& out.words@.len() == 0
}

/// The duration of a transcription: the end of its last segment, or zero
/// (whose bits are all zero) when there is none.
pub open spec fn duration_bits_of(segments: Seq<Segment>) -> u64 {
    if segments.len() == 0 {
        0
    } else {
        segments.last().end_bits
    }
}

/// `r` is the response to `result` in `language`.
pub open spec fn is_response_of(r: TranscriptionResponse, result: TranscriptionResult, language: Seq<char>) -> bool {
    &&& is_uuid_v4_text(r.transcription_id@)
    &&& r.text@ == result.text@
    &&& r.language@ == language
    &&& r.duration_bits == duration_bits_of(result.segments@)
    &&& r.segments@.len() == result.segments@.len()
    &&& forall|i: int| 0 <= i < r.segments@.len() ==> is_numbered_segment(#[trigger] r.segments@[i], result.segments@[i], i)
}

/// `a` is a new, unverified annotation of `audio_file` with transcript `text`.
pub open spec fn is_new_annotation(a: Annotation, audio_file: Seq<char>, text: Seq<char>) -> bool {
    &&& a.audio_file@ == audio_file
    &&& a.text@ == text
    &&& a.start_time_bits is None
    &&& a.end_time_bits is None
    &&& !a.verified
}

/// `new` is `old` with the given parts changed; identifier, audio file and
/// creation time stay.
pub open spec fn is_update(
    new: Annotation,
    old: Annotation,
    text: Option<&str>,
    start_time_bits: Option<u64>,
    end_time_bits: Option<u64>,
    verified: Option<bool>,
) -> bool {
    &&& new.id == old.id
    &&& new.audio_file == old.audio_file
    &&& new.created_at == old.created_at
    &&& match text {
        Some(t) => new.text@ == t@,
        None => new.text == old.text,
    }
    &&& new.start_time_bits == match start_time_bits {
        Some(s) => Some(s),
        None => old.start_time_bits,
    }
    &&& new.end_time_bits == match end_time_bits {
        Some(e) => Some(e),
        None => old.end_time_bits,
    }
    &&& new.verified == match verified {
        Some(v) => v,
        None => old.verified,
    }
}

/// The names of the text members of an exported line, in order.
pub open spec fn export_text_keys() -> Seq<Seq<char>> {
    seq!["audio_file"@, "text"@]
}

/// The JSON text of the duration written for annotation `a`, given the JSON
/// text of its end time minus its start time: `null` unless both times are
/// known.
pub open spec fn export_duration(a: Annotation, duration_json: Seq<char>) -> Seq<char> {
    if a.start_time_bits is Some && a.end_time_bits is Some {
        duration_json
    } else {
        "null"@
    }
}

/// The exported line of annotation `a`, or the text of the failure to write
/// it: its audio file and text, and its duration under `"duration"`.
pub open spec fn export_line(a: Annotation, duration_json: Seq<char>) -> Result<Seq<char>, Seq<char>> {
    json_line_with_member(export_text_keys(), seq![a.audio_file@, a.text@], "duration"@, export_duration(a, duration_json))
}

/// The exported lines of the verified annotations, in order, or the text of
/// the first failure to write one.
pub open spec fn exported(annotations: Seq<Annotation>, durations: Seq<Seq<char>>) -> Result<Seq<Seq<char>>, Seq<char>>
    decreases annotations.len(),
{
    if annotations.len() == 0 || durations.len() != annotations.len() {
        Ok(seq![])
    } else {
        match exported(annotations.drop_last(), durations.drop_last()) {
            Err(e) => Err(e),
            Ok(before) => if annotations.last().verified {
                match export_line(annotations.last(), durations.last()) {
                    Ok(line) => Ok(before.push(line)),
                    Err(e) => Err(e),
                }
            } else {
                Ok(before)
            },
        }
    }
}

/// A failure in the export of a prefix is the failure of the whole export.
proof fn lemma_exported_keeps_failure(annotations: Seq<Annotation>, durations: Seq<Seq<char>>, n: int)
    requires
        0 <= n <= annotations.len(),
        durations.len() == annotations.len(),
        exported(annotations.take(n), durations.take(n)) is Err,
    ensures
        exported(annotations, durations) == exported(annotations.take(n), durations.take(n)),
    decreases annotations.len() - n,
{
    if n < annotations.len() {
        assert(annotations.take(n + 1).drop_last() =~= annotations.take(n));
        assert(durations.take(n + 1).drop_last() =~= durations.take(n));
        lemma_exported_keeps_failure(annotations, durations, n + 1);
    } else {
        assert(annotations.take(n) =~= annotations);
        assert(durations.take(n) =~= durations);
    }
}

/// Renders the exported line of annotation `a`.
fn render_export_line(a: &Annotation, duration_json: &str) -> (res: Result<String, String>)
    ensures
        match export_line(*a, duration_json@) {
            Ok(t) => res matches Ok(s) && s@ == t,
            Err(t) => res matches Err(e) && e@ == t,
        },
{
    let mut keys: Vec<String> = Vec::new();
    keys.push(String::from_str("audio_file"));
    keys.push(String::from_str("text"));
    let mut values: Vec<String> = Vec::new();
    values.push(a.audio_file.clone());
    values.push(a.text.clone());
    proof {
        assert(texts(keys@) =~= export_text_keys());
        assert(texts(values@) =~= seq![a.audio_file@, a.text@]);
    }
    if a.start_time_bits.is_some() && a.end_time_bits.is_some() {
        write_line_with_member(&keys, &values, "duration", duration_json)
    } else {
        write_line_with_member(&keys, &values, "duration", "null")
    }
}

impl AnnotationService {
    /// A service for the audio under `data_dir`.
    pub fn new(data_dir: &str) -> (res: AnnotationService)
        ensures
            res.data_dir@ == data_dir@,
    {
        AnnotationService { data_dir: String::from_str(data_dir) }
    }

    /// `InternalError` unless the recogniser bridge is ready.
    pub fn require_bridge(bridge_ready: bool) -> (res: Result<(), AppError>)
        ensures
            bridge_ready ==> res is Ok,
            !bridge_ready ==> (res matches Err(e) && is_internal_error(e, "Annotator bridge not initialized"@)),
    {
        if bridge_ready {
            Ok(())
        } else {
            Err(AppError::InternalError(String::from_str("Annotator bridge not initialized")))
        }
    }

    /// The response to what the recogniser reported: a fresh identifier, the
    /// segments numbered from zero, and the end of the last one as duration.
    pub fn transcribe(&self, result: &TranscriptionResult, language: &str) -> (res: TranscriptionResponse)
        ensures
            is_response_of(res, *result, language@),
            res.segments@.len() == result.segments@.len(),
            result.segments@.len() > 0 ==> res.duration_bits == result.segments@[result.segments@.len() - 1].end_bits,
            result.segments@.len() == 0 ==> res.duration_bits == 0,
            forall|i: int| 0 <= i < res.segments@.len() ==> {
                &&& (#[trigger] res.segments@[i]).start_bits == result.segments@[i].start_bits
                &&& res.segments@[i].end_bits == result.segments@[i].end_bits
                &&& res.segments@[i].text@ == result.segments@[i].text@
                &&& res.segments@[i].confidence_bits == result.segments@[i].confidence_bits
                &&& res.segments@[i].id as int == i % 0x1_0000_0000
            },
    {
        let transcription_id = new_uuid();
        let n = result.segments.len();
        let duration_bits = if n == 0 { 0 } else { result.segments[n - 1].end_bits };
        let mut segments: Vec<AnnotationSegment> = Vec::new();
        let mut i: usize = 0;
        while i < n
            invariant
                n == result.segments@.len(),
                i <= n,
                segments@.len() == i,
                forall|k: int| 0 <= k < i ==> is_numbered_segment(#[trigger] segments@[k], result.segments@[k], k),
            decreases n - i,
        {
            let s = &result.segments[i];
            let id = i as u32;
            let wide = i as u64;
            assert(id as u64 == wide % 0x1_0000_0000u64) by (bit_vector)
                requires
                    id == wide as u32,
            ;
            segments.push(AnnotationSegment {
                id,
                start_bits: s.start_bits,
                end_bits: s.end_bits,
                text: s.text.clone(),
                confidence_bits: s.confidence_bits,
                words: Vec::new(),
            });
            i = i + 1;
        }
        TranscriptionResponse {
            transcription_id,
            text: result.text.clone(),
            segments,
            language: String::from_str(language),
            duration_bits,
        }
    }

    /// The responses to what the recogniser reported of several files, in order.
    pub fn batch_transcribe(&self, results: &Vec<TranscriptionResult>, language: &str) -> (res: Vec<TranscriptionResponse>)
        ensures
            res@.len() == results@.len(),
            forall|i: int| 0 <= i < res@.len() ==> is_response_of(#[trigger] res@[i], results@[i], language@),
    {
        let mut out: Vec<TranscriptionResponse> = Vec::new();
        let mut i: usize = 0;
        while i < results.len()
            invariant
                i <= results@.len(),
                out@.len() == i,
                forall|k: int| 0 <= k < i ==> is_response_of(#[trigger] out@[k], results@[k], language@),
            decreases results@.len() - i,
        {
            out.push(self.transcribe(&results[i], language));
            i = i + 1;
        }
        out
    }

    /// An unverified annotation under identifier `id` with no audio file and
    /// no text, created now: the record that an update starts from.
    pub fn blank_annotation(id: String) -> (res: Annotation)
        ensures
            res.id@ == id@,
            is_new_annotation(res, ""@, ""@),
    {
        let created_at = utc_now();
        let updated_at = utc_now();
        Self::create_annotation_at("", "", id, created_at, updated_at)
    }

    /// A new, unverified annotation of `audio_file` with transcript `text`,
    /// under a fresh identifier, created now.
    pub fn create_annotation(&self, audio_file: &str, text: &str) -> (res: Result<Annotation, AppError>)
        ensures
            res matches Ok(a) && is_uuid_v4_text(a.id@) && is_new_annotation(a, audio_file@, text@),
    {
        let id = new_uuid();
        let created_at = utc_now();
        let updated_at = utc_now();
        Ok(Self::create_annotation_at(audio_file, text, id, created_at, updated_at))
    }

    /// A new, unverified annotation of `audio_file` with transcript `text`,
    /// under identifier `id`, stamped `created_at` and `updated_at`.
    pub fn create_annotation_at(audio_file: &str, text: &str, id: String, created_at: Timestamp, updated_at: Timestamp) -> (res: Annotation)
        ensures
            res.id@ == id@,
            is_new_annotation(res, audio_file@, text@),
            res.created_at == created_at,
            res.updated_at == updated_at,
    {
        Annotation {
            id,
            audio_file: String::from_str(audio_file),
            text: String::from_str(text),
            start_time_bits: None,
            end_time_bits: None,
            verified: false,
            created_at,
            updated_at,
        }
    }

    /// Changes the parts of an annotation that are given and stamps it as
    /// updated now; the parts not given stay as they were.
    pub fn update_annotation(
        &self,
        annotation: &mut Annotation,
        text: Option<&str>,
        start_time_bits: Option<u64>,
        end_time_bits: Option<u64>,
        verified: Option<bool>,
    ) -> (res: Result<(), AppError>)
        ensures
            res is Ok,
            is_update(*final(annotation), *old(annotation), text, start_time_bits, end_time_bits, verified),
            start_time_bits is None ==> final(annotation).start_time_bits == old(annotation).start_time_bits,
            end_time_bits is None ==> final(annotation).end_time_bits == old(annotation).end_time_bits,
            verified is None ==> final(annotation).verified == old(annotation).verified,
            text is None ==> final(annotation).text == old(annotation).text,
    {
        let now = utc_now();
        Self::update_annotation_at(annotation, text, start_time_bits, end_time_bits, verified, now);
        Ok(())
    }

    /// Changes the parts of an annotation that are given and stamps it as
    /// updated at `now`; the parts not given stay as they were.
    pub fn update_annotation_at(
        annotation: &mut Annotation,
        text: Option<&str>,
        start_time_bits: Option<u64>,
        end_time_bits: Option<u64>,
        verified: Option<bool>,
        now: Timestamp,
    )
        ensures
            is_update(*final(annotation), *old(annotation), text, start_time_bits, end_time_bits, verified),
            final(annotation).updated_at == now,
            start_time_bits is None ==> final(annotation).start_time_bits == old(annotation).start_time_bits,
            end_time_bits is None ==> final(annotation).end_time_bits == old(annotation).end_time_bits,
            verified is None ==> final(annotation).verified == old(annotation).verified,
            text is None ==> final(annotation).text == old(annotation).text,
            start_time_bits is Some ==> final(annotation).start_time_bits == start_time_bits,
            end_time_bits is Some ==> final(annotation).end_time_bits == end_time_bits,
    {
        if let Some(t) = text {
            annotation.text = String::from_str(t);
        }
        if let Some(st) = start_time_bits {
            annotation.start_time_bits = Some(st);
        }
        if let Some(et) = end_time_bits {
            annotation.end_time_bits = Some(et);
        }
        if let Some(v) = verified {
            annotation.verified = v;
        }
        annotation.updated_at = now;
    }

    /// The export of the verified annotations, one JSON line each, in order,
    /// joined by newlines. `durations[i]` is the JSON text of the end time
    /// minus the start time of `annotations[i]`; it is written only where both
    /// times are known. A line that cannot be written fails the export with an
    /// `InternalError` carrying the failure's text.
    pub fn export_annotations(&self, annotations: &Vec<Annotation>, durations: &Vec<String>) -> (res: Result<String, AppError>)
        requires
            durations@.len() == annotations@.len(),
        ensures
            match exported(annotations@, string_views(durations@)) {
                Ok(lines) => res matches Ok(s) && s@ == join_lines(lines),
                Err(t) => res matches Err(e) && is_internal_error(e, t),
            },
    {
        let ghost ds = string_views(durations@);
        let mut chosen: Vec<String> = Vec::new();
        let mut i: usize = 0;
        proof {
            assert(string_views(chosen@) =~= Seq::<Seq<char>>::empty());
            assert(exported(annotations@.take(0), ds.take(0)) == Ok::<Seq<Seq<char>>, Seq<char>>(seq![]));
        }
        while i < annotations.len()
            invariant
                durations@.len() == annotations@.len(),
                ds == string_views(durations@),
                i <= annotations@.len(),
                exported(annotations@.take(i as int), ds.take(i as int)) == Ok::<Seq<Seq<char>>, Seq<char>>(string_views(chosen@)),
            decreases annotations@.len() - i,
        {
            proof {
                assert(annotations@.take(i + 1).drop_last() =~= annotations@.take(i as int));
                assert(ds.take(i + 1).drop_last() =~= ds.take(i as int));
                assert(annotations@.take(i + 1).last() == annotations@[i as int]);
                assert(ds.take(i + 1).last() == durations@[i as int]@);
            }
            if annotations[i].verified {
                match render_export_line(&annotations[i], durations[i].as_str()) {
                    Ok(line) => {
                        let ghost before = string_views(chosen@);
                        chosen.push(line);
                        proof {
                            assert(string_views(chosen@) =~= before.push(chosen@.last()@));
                            assert(export_line(annotations@[i as int], ds[i as int]) == Ok::<Seq<char>, Seq<char>>(chosen@.last()@));
                        }
                    },
                    Err(msg) => {
                        proof {
                            lemma_exported_keeps_failure(annotations@, ds, i + 1);
                        }
                        return Err(AppError::InternalError(msg));
                    },
                }
            }
            i = i + 1;
        }
        proof {
            assert(annotations@.take(i as int) =~= annotations@);
            assert(ds.take(i as int) =~= ds);
        }
        Ok(join_with_newlines(&chosen))
    }
}

} // verus!
