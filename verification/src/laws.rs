use vstd::prelude::*;
use vstd::utf8::{encode_utf8, is_ascii_chars, is_ascii_chars_encode_utf8};
use crate::annotation::{exported, is_response_of, is_update, Annotation, TranscriptionResponse, TranscriptionResult};
use crate::cache::{keys_after_put, lemma_put_keeps_wf};
use crate::clock::Timestamp;
use crate::emotion::{first_preset_at, is_builtin_catalogue, EmotionPreset};
use crate::error::AppError;
use crate::model::{is_model_of, model_dirs, ModelDirProbe, ModelListResponse, VoiceModel};
use crate::text::{join_lines, path_join};
use crate::training::{
    cancellable, cancelled, epoch_done, exporting, is_completed, preparing, training,
    TrainingJob, TrainingStatus,
};
use crate::text::{decimal, digit_char, digits_value, is_digit_byte, parse_unsigned_spec, unsigned_digits};

verus! {

/// Every error is answered with 400, 404 or 500, and 404 exactly for a
/// missing resource.
pub proof fn law_error_status(e: AppError)
    ensures
        e.status_spec() == 400 || e.status_spec() == 404 || e.status_spec() == 500,
        (e.status_spec() == 404) == (e is NotFound),
{
}

spec fn ascii_bytes(s: Seq<char>) -> Seq<u8> {
    Seq::new(s.len(), |i: int| s[i] as u8)
}

proof fn lemma_digit_char(d: nat)
    requires
        d < 10,
    ensures
        digit_char(d) as u8 == 48 + d,
        '\0' <= digit_char(d) <= '\u{7f}',
{
}

proof fn lemma_decimal_digits(n: nat)
    ensures
        is_ascii_chars(decimal(n)),
        decimal(n).len() > 0,
        forall|i: int| 0 <= i < decimal(n).len() ==> is_digit_byte(#[trigger] ascii_bytes(decimal(n))[i]),
        digits_value(ascii_bytes(decimal(n))) == n,
    decreases n,
{
    let s = decimal(n);
    if n < 10 {
        lemma_digit_char(n);
        assert(ascii_bytes(s).drop_last() =~= Seq::<u8>::empty());
        assert(digits_value(ascii_bytes(s)) == digits_value(ascii_bytes(s).drop_last()) * 10 + (ascii_bytes(s).last() - 48) as nat);
    } else {
        let d = decimal(n / 10);
        let c = digit_char(n % 10);
        lemma_decimal_digits(n / 10);
        lemma_digit_char(n % 10);
        assert(s == d.push(c));
        assert(ascii_bytes(s).drop_last() =~= ascii_bytes(d));
        assert(ascii_bytes(s).last() == c as u8);
        assert(digits_value(ascii_bytes(s)) == digits_value(ascii_bytes(s).drop_last()) * 10 + (ascii_bytes(s).last() - 48) as nat);
        assert(n == (n / 10) * 10 + n % 10);
        assert forall|i: int| 0 <= i < s.len() implies is_digit_byte(#[trigger] ascii_bytes(s)[i]) by {
            if i < d.len() {
                assert(ascii_bytes(s)[i] == ascii_bytes(d)[i]);
            }
        }
        assert forall|i: int| 0 <= i < s.len() implies '\0' <= #[trigger] s[i] <= '\u{7f}' by {
            if i < d.len() {
                assert(s[i] == d[i]);
            }
        }
    }
}

/// Reading back the decimal writing of a number gives the number: the port
/// written in the server address parses back to the configured port.
pub proof fn law_decimal_parses_back(n: nat, max: nat)
    requires
        n <= max,
    ensures
        parse_unsigned_spec(encode_utf8(decimal(n)), max) == Some(n),
{
    lemma_decimal_digits(n);
    let s = decimal(n);
    is_ascii_chars_encode_utf8(s);
    let b = encode_utf8(s);
    assert(b =~= ascii_bytes(s));
    assert(b[0] != 43) by {
        assert(is_digit_byte(ascii_bytes(s)[0]));
    }
    assert(unsigned_digits(b) == b);
}

/// Joining a directory that does not end in `/` with a relative name puts
/// one `/` between them.
pub proof fn law_join_relative(base: Seq<char>, name: Seq<char>)
    requires
        base.len() > 0,
        base.last() != '/',
        name.len() > 0,
        name[0] != '/',
    ensures
        path_join(base, name) == base + seq!['/'] + name,
{
}

/// Every preset of the built-in catalogue is the first one with its
/// identifier, so looking any listed preset up finds that very preset.
pub proof fn law_builtin_presets_are_found(ps: Seq<EmotionPreset>, i: int)
    requires
        is_builtin_catalogue(ps),
        0 <= i < ps.len(),
    ensures
        first_preset_at(ps, ps[i].id@, i),
{
    reveal_strlit("neutral");
    reveal_strlit("happy");
    reveal_strlit("sad");
    reveal_strlit("angry");
    reveal_strlit("calm");
    reveal_strlit("excited");
    reveal_strlit("storytelling");
    assert forall|j: int| 0 <= j < i implies (#[trigger] ps[j]).id@ != ps[i].id@ by {
        assert(ps[j].id@.len() != ps[i].id@.len() || ps[j].id@[0] != ps[i].id@[0] || ps[j].id@[1] != ps[i].id@[1]);
    }
}

/// A cancelled job reports the cancelled stage and the time it was
/// cancelled, and stays cancellable (cancelling it again succeeds).
pub proof fn law_cancel_marks_cancelled(job: TrainingJob, t: Timestamp)
    ensures
        cancelled(job, t).status == TrainingStatus::Cancelled,
        cancelled(job, t).completed_at == Some(t),
        cancellable(cancelled(job, t).status),
        cancelled(job, t).id == job.id,
{
}

/// A job after its first `done` epochs of `total`.
pub open spec fn run_epochs(job: TrainingJob, done: nat, total: u32) -> TrainingJob
    decreases done,
{
    if done == 0 {
        job
    } else {
        epoch_done(run_epochs(job, (done - 1) as nat, total), done as u32, total)
    }
}

proof fn lemma_run_epochs(job: TrainingJob, done: nat, total: u32)
    requires
        done <= u32::MAX,
    ensures
        run_epochs(job, done, total).id == job.id,
        run_epochs(job, done, total).name == job.name,
        run_epochs(job, done, total).status == job.status,
        run_epochs(job, done, total).created_at == job.created_at,
        run_epochs(job, done, total).started_at == job.started_at,
        run_epochs(job, done, total).estimated_time == job.estimated_time,
        done > 0 ==> run_epochs(job, done, total).epochs_done == done,
        done > 0 ==> run_epochs(job, done, total).epochs_total == total,
    decreases done,
{
    if done > 0 {
        lemma_run_epochs(job, (done - 1) as nat, total);
    }
}

/// A run of `total` epochs without interruption — preparing, training, each
/// epoch in turn, exporting, completing — leaves the job completed with all
/// its epochs done, started when it was prepared, under its identifier.
pub proof fn law_full_run_completes(
    job: TrainingJob,
    total: u32,
    started: Timestamp,
    finished: Timestamp,
    path: Seq<char>,
    after: TrainingJob,
)
    requires
        total >= 1,
        is_completed(after, exporting(run_epochs(training(preparing(job, started)), total as nat, total)), total, path, finished),
    ensures
        after.status == TrainingStatus::Completed,
        after.epochs_done == total,
        after.epochs_total == total,
        after.id == job.id,
        after.name == job.name,
        after.created_at == job.created_at,
        after.started_at == Some(started),
        after.completed_at == Some(finished),
        after.output_model_path matches Some(p) && p@ == path,
        !cancellable(after.status),
{
    lemma_run_epochs(training(preparing(job, started)), total as nat, total);
}

/// After a model is loaded it is remembered as loaded, as the most recent one.
pub proof fn law_loaded_model_is_remembered(keys: Seq<Seq<char>>, cap: nat, model: Seq<char>)
    requires
        keys.no_duplicates(),
        keys.len() <= cap,
        cap > 0,
    ensures
        keys_after_put(keys, cap, model).contains(model),
        keys_after_put(keys, cap, model)[0] == model,
        keys_after_put(keys, cap, model).len() <= cap,
{
    lemma_put_keeps_wf(keys, cap, model);
}

/// Loading a new model into a full cache forgets exactly the least recently
/// loaded model and keeps the others in their order.
pub proof fn law_full_cache_forgets_oldest(keys: Seq<Seq<char>>, cap: nat, model: Seq<char>)
    requires
        keys.no_duplicates(),
        keys.len() == cap,
        cap > 0,
        !keys.contains(model),
    ensures
        !keys_after_put(keys, cap, model).contains(keys.last()),
        keys_after_put(keys, cap, model).subrange(1, cap as int) == keys.drop_last(),
{
    let after = keys_after_put(keys, cap, model);
    assert(after.subrange(1, cap as int) =~= keys.drop_last());
    if after.contains(keys.last()) {
        let i = choose|i: int| 0 <= i < after.len() && after[i] == keys.last();
        if i == 0 {
            assert(keys.contains(model)) by {
                assert(keys[keys.len() - 1] == model);
            }
        } else {
            assert(keys[i - 1] == keys[keys.len() - 1]);
        }
    }
}

/// Only verified annotations are exported: with none verified the export is
/// empty, and nothing is written, so nothing can fail.
pub proof fn law_export_only_verified(annotations: Seq<Annotation>, durations: Seq<Seq<char>>)
    requires
        forall|i: int| 0 <= i < annotations.len() ==> !(#[trigger] annotations[i]).verified,
    ensures
        exported(annotations, durations) == Ok::<Seq<Seq<char>>, Seq<char>>(Seq::<Seq<char>>::empty()),
    decreases annotations.len(),
{
    if annotations.len() > 0 && durations.len() == annotations.len() {
        assert(!annotations[annotations.len() - 1].verified);
        law_export_only_verified(annotations.drop_last(), durations.drop_last());
    }
}

/// An export that succeeds has one line for each verified annotation.
pub proof fn law_export_counts_verified(annotations: Seq<Annotation>, durations: Seq<Seq<char>>)
    requires
        durations.len() == annotations.len(),
        exported(annotations, durations) is Ok,
    ensures
        exported(annotations, durations)->Ok_0.len() == annotations.filter(|a: Annotation| a.verified).len(),
    decreases annotations.len(),
{
    reveal_with_fuel(Seq::<_>::filter, 1);
    if annotations.len() > 0 {
        law_export_counts_verified(annotations.drop_last(), durations.drop_last());
    }
}

/// An uninterrupted run of `total` epochs moves the job through the stages
/// Preparing, Training (through every epoch), Exporting, in this order, and
/// never through another stage; after epoch `e` its progress is `e` of
/// `total`, so progress only rises and never passes its total.
pub proof fn law_run_stages_and_progress(job: TrainingJob, total: u32, started: Timestamp)
    requires
        total >= 1,
    ensures
        preparing(job, started).status == TrainingStatus::Preparing,
        training(preparing(job, started)).status == TrainingStatus::Training,
        forall|e: nat| 1 <= e <= total ==> {
            &&& (#[trigger] run_epochs(training(preparing(job, started)), e, total)).status == TrainingStatus::Training
            &&& run_epochs(training(preparing(job, started)), e, total).epochs_done == e
            &&& run_epochs(training(preparing(job, started)), e, total).epochs_total == total
        },
        forall|e1: nat, e2: nat| 1 <= e1 <= e2 <= total ==>
            (#[trigger] run_epochs(training(preparing(job, started)), e1, total)).epochs_done
                <= (#[trigger] run_epochs(training(preparing(job, started)), e2, total)).epochs_done,
        exporting(run_epochs(training(preparing(job, started)), total as nat, total)).status == TrainingStatus::Exporting,
{
    let j = training(preparing(job, started));
    assert forall|e: nat| 1 <= e <= total implies {
        &&& (#[trigger] run_epochs(j, e, total)).status == TrainingStatus::Training
        &&& run_epochs(j, e, total).epochs_done == e
        &&& run_epochs(j, e, total).epochs_total == total
    } by {
        lemma_run_epochs(j, e, total);
    }
    assert forall|e1: nat, e2: nat| 1 <= e1 <= e2 <= total implies
        (#[trigger] run_epochs(j, e1, total)).epochs_done <= (#[trigger] run_epochs(j, e2, total)).epochs_done by {
        lemma_run_epochs(j, e1, total);
        lemma_run_epochs(j, e2, total);
    }
}

/// `name` can name an entry of a directory: it is not empty and holds no `/`.
pub open spec fn is_entry_name(name: Seq<char>) -> bool {
    name.len() > 0 && !name.contains('/')
}

proof fn lemma_model_dirs_are_entries(probes: Seq<ModelDirProbe>)
    requires
        forall|j: int| 0 <= j < probes.len() ==> is_entry_name(#[trigger] probes[j].entry_name@),
    ensures
        forall|k: int| 0 <= k < model_dirs(probes).len() ==> is_entry_name(#[trigger] model_dirs(probes)[k].entry_name@),
    decreases probes.len(),
{
    reveal_with_fuel(Seq::<_>::filter, 1);
    if probes.len() > 0 {
        lemma_model_dirs_are_entries(probes.drop_last());
        assert(is_entry_name(probes[probes.len() - 1].entry_name@));
    }
}

/// Every model of a listing of the models directory `dir` made from its
/// entries (so every model path that `get_model_path` hands out) lies in
/// that directory: its model path is `dir`, then the entry's name, then
/// `/model.pth`. With an empty directory the path is the entry's name, then
/// `/model.pth`.
pub proof fn law_listed_model_path_under_dir(listing: ModelListResponse, dir: Seq<char>, probes: Seq<ModelDirProbe>, k: int)
    requires
        listing.models@.len() == model_dirs(probes).len(),
        forall|j: int| 0 <= j < listing.models@.len() ==> is_model_of(#[trigger] listing.models@[j], dir, model_dirs(probes)[j]),
        forall|j: int| 0 <= j < probes.len() ==> is_entry_name(#[trigger] probes[j].entry_name@),
        0 <= k < listing.models@.len(),
    ensures
        listing.models@[k].model_path@.len() > dir.len() + "/model.pth"@.len(),
        listing.models@[k].model_path@.subrange(0, dir.len() as int) == dir,
        listing.models@[k].model_path@ == path_join(dir, model_dirs(probes)[k].entry_name@) + "/model.pth"@,
{
    reveal_strlit("/model.pth");
    reveal_strlit("model.pth");
    lemma_model_dirs_are_entries(probes);
    let name = model_dirs(probes)[k].entry_name@;
    assert(is_entry_name(name));
    assert(name[0] != '/') by {
        if name[0] == '/' {
            assert(name.contains(name[0]));
        }
    }
    assert(name.last() != '/') by {
        if name.last() == '/' {
            assert(name.contains(name[name.len() - 1]));
        }
    }
    assert(is_model_of(listing.models@[k], dir, model_dirs(probes)[k]));
    let p = path_join(dir, name);
    assert(p.len() > dir.len() && p.last() == name.last());
    assert(p.subrange(0, dir.len() as int) =~= dir);
    assert(listing.models@[k].model_path@ =~= p + "/model.pth"@);
    assert(listing.models@[k].model_path@.subrange(0, dir.len() as int) =~= dir);
}

/// Every job can be cancelled except one that has completed or failed:
/// pending, preparing, training, validating, exporting and already cancelled
/// jobs all can.
pub proof fn law_cancellable_statuses(s: TrainingStatus)
    ensures
        cancellable(s) <==> (s != TrainingStatus::Completed && s != TrainingStatus::Failed),
        cancellable(TrainingStatus::Pending),
        cancellable(TrainingStatus::Preparing),
        cancellable(TrainingStatus::Training),
        cancellable(TrainingStatus::Validating),
        cancellable(TrainingStatus::Exporting),
        cancellable(TrainingStatus::Cancelled),
        !cancellable(TrainingStatus::Completed),
        !cancellable(TrainingStatus::Failed),
{
}

/// An update changes exactly the parts it gives: a part given is set to the
/// value given, a part not given keeps its value, and the identifier, the
/// audio file and the creation time never change.
pub proof fn law_update_changes_only_given_parts(
    new: Annotation,
    old: Annotation,
    text: Option<&str>,
    start_time_bits: Option<u64>,
    end_time_bits: Option<u64>,
    verified: Option<bool>,
)
    requires
        is_update(new, old, text, start_time_bits, end_time_bits, verified),
    ensures
        new.id == old.id,
        new.audio_file == old.audio_file,
        new.created_at == old.created_at,
        text is None ==> new.text == old.text,
        text matches Some(t) ==> new.text@ == t@,
        start_time_bits is None ==> new.start_time_bits == old.start_time_bits,
        start_time_bits is Some ==> new.start_time_bits == start_time_bits,
        end_time_bits is None ==> new.end_time_bits == old.end_time_bits,
        end_time_bits is Some ==> new.end_time_bits == end_time_bits,
        verified is None ==> new.verified == old.verified,
        verified matches Some(v) ==> new.verified == v,
{
}

/// A transcription response keeps the recogniser's segments, in order: the
/// segment at each position has the start, end, text and confidence of the
/// recogniser's segment at that position, and is numbered by its position.
pub proof fn law_response_keeps_segments(r: TranscriptionResponse, result: TranscriptionResult, language: Seq<char>, i: int)
    requires
        is_response_of(r, result, language),
        0 <= i < result.segments@.len(),
    ensures
        r.segments@.len() == result.segments@.len(),
        r.segments@[i].start_bits == result.segments@[i].start_bits,
        r.segments@[i].end_bits == result.segments@[i].end_bits,
        r.segments@[i].text@ == result.segments@[i].text@,
        r.segments@[i].confidence_bits == result.segments@[i].confidence_bits,
        i < 0x1_0000_0000 ==> r.segments@[i].id == i,
        r.text@ == result.text@,
        r.language@ == language,
{
}

/// The duration of a transcription response is the end of the recogniser's
/// last segment, or zero when there are no segments.
pub proof fn law_response_duration(r: TranscriptionResponse, result: TranscriptionResult, language: Seq<char>)
    requires
        is_response_of(r, result, language),
    ensures
        result.segments@.len() > 0 ==> r.duration_bits == result.segments@[result.segments@.len() - 1].end_bits,
        result.segments@.len() == 0 ==> r.duration_bits == 0,
{
}

/// A model found in an entry of the models directory `dir` has its files in
/// that entry: its model file always, its index file exactly when the entry
/// holds `features.index`, its emotion description exactly when the entry
/// holds `emotion.emod`.
pub proof fn law_model_files_in_entry(m: VoiceModel, dir: Seq<char>, probe: ModelDirProbe)
    requires
        is_model_of(m, dir, probe),
    ensures
        m.model_path@ == path_join(path_join(dir, probe.entry_name@), "model.pth"@),
        probe.has_index ==> (m.index_path matches Some(p) && p@ == path_join(path_join(dir, probe.entry_name@), "features.index"@)),
        !probe.has_index ==> m.index_path is None,
        probe.has_emod ==> (m.emod_path matches Some(p) && p@ == path_join(path_join(dir, probe.entry_name@), "emotion.emod"@)),
        !probe.has_emod ==> m.emod_path is None,
        m.file_size == probe.file_size,
{
}

/// The number of newlines in a text.
pub open spec fn newline_count(s: Seq<char>) -> nat {
    s.filter(|c: char| c == '\n').len()
}

/// Joining two non-empty runs of lines puts exactly one newline between
/// their joinings.
pub proof fn law_join_lines_append(a: Seq<Seq<char>>, b: Seq<Seq<char>>)
    requires
        a.len() > 0,
        b.len() > 0,
    ensures
        join_lines(a + b) == join_lines(a) + seq!['\n'] + join_lines(b),
    decreases b.len(),
{
    if b.len() == 1 {
        assert((a + b).drop_last() =~= a);
        assert((a + b).last() == b[0]);
    } else {
        law_join_lines_append(a, b.drop_last());
        assert((a + b).drop_last() =~= a + b.drop_last());
        assert((a + b).last() == b.last());
        assert(join_lines(a + b) =~= join_lines(a) + seq!['\n'] + join_lines(b));
    }
}

/// Lines that hold no newline are joined with one newline fewer than there
/// are lines, so the joined text splits back into them.
pub proof fn law_join_lines_newlines(lines: Seq<Seq<char>>)
    requires
        lines.len() > 0,
        forall|i: int| 0 <= i < lines.len() ==> newline_count(#[trigger] lines[i]) == 0,
    ensures
        newline_count(join_lines(lines)) == lines.len() - 1,
    decreases lines.len(),
{
    if lines.len() > 1 {
        let pred = |c: char| c == '\n';
        law_join_lines_newlines(lines.drop_last());
        let front = join_lines(lines.drop_last());
        assert(newline_count(lines[lines.len() - 1]) == 0);
        Seq::filter_distributes_over_add(front + seq!['\n'], lines.last(), pred);
        Seq::filter_distributes_over_add(front, seq!['\n'], pred);
        reveal_with_fuel(Seq::<_>::filter, 2);
        assert(seq!['\n'].filter(pred).len() == 1);
    }
}

} // verus!
