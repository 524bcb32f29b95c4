use vstd::prelude::*;
use crate::clock::{utc_now, Timestamp};
use crate::error::{is_bad_request, is_not_found, AppError};
use crate::ids::{is_uuid_v4_text, new_uuid};
use crate::text::{concat, join_path, path_join};

verus! {

/// The stages of a training job.
#[derive(PartialEq, Eq, Structural, Clone, Copy, Debug)]
pub enum TrainingStatus {
    Pending,
    Preparing,
    Training,
    Validating,
    Exporting,
    Completed,
    Failed,
    Cancelled,
}

impl TrainingStatus {
    /// The name of each stage.
    pub open spec fn name_spec(self) -> Seq<char> {
        match self {
            TrainingStatus::Pending => "Pending"@,
            TrainingStatus::Preparing => "Preparing"@,
            TrainingStatus::Training => "Training"@,
            TrainingStatus::Validating => "Validating"@,
            TrainingStatus::Exporting => "Exporting"@,
            TrainingStatus::Completed => "Completed"@,
            TrainingStatus::Failed => "Failed"@,
            TrainingStatus::Cancelled => "Cancelled"@,
        }
    }

    /// The name of the stage.
    pub fn name(&self) -> (res: &'static str)
        ensures
            res@ == self.name_spec(),
    {
        match self {
            TrainingStatus::Pending => "Pending",
            TrainingStatus::Preparing => "Preparing",
            TrainingStatus::Training => "Training",
            TrainingStatus::Validating => "Validating",
            TrainingStatus::Exporting => "Exporting",
            TrainingStatus::Completed => "Completed",
            TrainingStatus::Failed => "Failed",
            TrainingStatus::Cancelled => "Cancelled",
        }
    }
}

/// The audio and transcripts to train on.
#[derive(Debug, Clone)]
pub struct TrainingData {
    pub audio_files: Vec<String>,
    pub annotations_file: Option<String>,
}

/// The integer settings of a training run.
#[derive(Debug, Clone)]
pub struct TrainingConfig {
    pub epochs: u32,
    pub batch_size: u32,
    pub save_every: u32,
}

/// A request to train a new voice model.
#[derive(Debug, Clone)]
pub struct TrainingRequest {
    pub model_name: String,
    pub training_data: TrainingData,
    pub config: TrainingConfig,
    pub base_model: Option<String>,
    pub emotion_extraction: bool,
}

/// A training job. Its progress is `epochs_done` out of `epochs_total`:
/// nothing while `epochs_done` is 0, complete when the two are equal.
#[derive(Debug, Clone)]
pub struct TrainingJob {
    pub id: String,
    pub name: String,
    pub status: TrainingStatus,
    pub epochs_done: u32,
    pub epochs_total: u32,
    pub created_at: Timestamp,
    pub started_at: Option<Timestamp>,
    pub completed_at: Option<Timestamp>,
    pub output_model_path: Option<String>,
    pub error_message: Option<String>,
    pub estimated_time: Option<u64>,
}

/// The state of a job as reported to clients.
#[derive(Debug, Clone)]
pub struct TrainingStatusResponse {
    pub training_id: String,
    pub status: TrainingStatus,
    pub epochs_done: u32,
    pub epochs_total: u32,
    pub total_epochs: u32,
    pub estimated_time_remaining: Option<u64>,
}

/// The identifier and working directory of a job about to be created.
#[derive(Debug, Clone)]
pub struct JobPlan {
    pub job_id: String,
    pub job_dir: String,
}

/// What the runner of a job does next.
#[derive(Debug, Clone)]
pub enum RunnerAction {
    /// Wait, then report the end of this epoch.
    SleepThenEpoch(u32),
    /// Report that the model is being exported.
    Export,
    /// Write the model file at this path, then report completion.
    WriteModel(String),
    /// Nothing more to do.
    Finish,
}

/// The training jobs, each under its identifier.
pub struct TrainingService {
    training_dir: String,
    jobs: Vec<TrainingJob>,
}

fn clone_text(o: &Option<String>) -> (res: Option<String>)
    ensures
        res == *o,
{
    match o {
        Some(s) => Some(s.clone()),
        None => None,
    }
}

impl TrainingJob {
    /// A copy of the job.
    pub fn duplicate(&self) -> (res: TrainingJob)
        ensures
            res == *self,
    {
        TrainingJob {
            id: self.id.clone(),
            name: self.name.clone(),
            status: self.status,
            epochs_done: self.epochs_done,
            epochs_total: self.epochs_total,
            created_at: self.created_at,
            started_at: self.started_at,
            completed_at: self.completed_at,
            output_model_path: clone_text(&self.output_model_path),
            error_message: clone_text(&self.error_message),
            estimated_time: self.estimated_time,
        }
    }
}

/// The smallest integer at least `a / b`.
pub open spec fn ceil_div(a: nat, b: nat) -> nat
    recommends
        b > 0,
{
    ((a + b - 1) as nat) / b
}

/// The estimated duration of a run in seconds: ten per epoch, times the
/// number of batches of the given size needed to cover sixteen samples.
pub open spec fn estimated_seconds(epochs: nat, batch_size: nat) -> nat {
    if epochs == 0 {
        0
    } else {
        epochs * 10 * ceil_div(16, batch_size)
    }
}

/// Estimates how long a run takes, in seconds.
pub fn estimate_training_time(config: &TrainingConfig) -> (res: u64)
    requires
        config.batch_size > 0 || config.epochs == 0,
    ensures
        res == estimated_seconds(config.epochs as nat, config.batch_size as nat),
{
    if config.epochs == 0 {
        return 0;
    }
    let base_time = config.epochs as u64 * 10;
    let b = config.batch_size as u64;
    let batch_factor = (15 + b) / b;
    assert(batch_factor <= 16) by (nonlinear_arith)
        requires
            b >= 1,
            batch_factor as int == (15 + b as int) / (b as int),
    {
    }
    assert(base_time * batch_factor <= 0xffff_ffff * 10 * 16) by (nonlinear_arith)
        requires
            base_time <= 0xffff_ffff * 10,
            batch_factor <= 16,
    {
    }
    base_time * batch_factor
}

/// No two jobs of the sequence share an identifier.
pub open spec fn ids_unique(s: Seq<TrainingJob>) -> bool {
    forall|i: int, j: int|
        #![trigger s[i], s[j]]
        0 <= i < s.len() && 0 <= j < s.len() && s[i].id@ == s[j].id@ ==> i == j
}

/// The jobs of a sequence, each under its identifier.
pub open spec fn jobs_map(s: Seq<TrainingJob>) -> Map<Seq<char>, TrainingJob> {
    Map::new(
        |k: Seq<char>| exists|i: int| 0 <= i < s.len() && (#[trigger] s[i]).id@ == k,
        |k: Seq<char>| s[choose|i: int| 0 <= i < s.len() && (#[trigger] s[i]).id@ == k],
    )
}

proof fn lemma_map_at(s: Seq<TrainingJob>, i: int)
    requires
        ids_unique(s),
        0 <= i < s.len(),
    ensures
        jobs_map(s).contains_key(s[i].id@),
        jobs_map(s)[s[i].id@] == s[i],
{
    let k = s[i].id@;
    assert(0 <= i < s.len() && s[i].id@ == k);
    let c = choose|c: int| 0 <= c < s.len() && (#[trigger] s[c]).id@ == k;
    assert(s[c].id@ == s[i].id@);
}

proof fn lemma_map_absent(s: Seq<TrainingJob>, k: Seq<char>)
    requires
        forall|i: int| 0 <= i < s.len() ==> (#[trigger] s[i]).id@ != k,
    ensures
        !jobs_map(s).contains_key(k),
{
}

proof fn lemma_map_push(s: Seq<TrainingJob>, job: TrainingJob)
    requires
        ids_unique(s),
        !jobs_map(s).contains_key(job.id@),
    ensures
        ids_unique(s.push(job)),
        jobs_map(s.push(job)) == jobs_map(s).insert(job.id@, job),
{
    let t = s.push(job);
    assert forall|i: int| 0 <= i < s.len() implies (#[trigger] s[i]).id@ != job.id@ by {
        if s[i].id@ == job.id@ {
            assert(jobs_map(s).contains_key(job.id@));
        }
    }
    assert(ids_unique(t)) by {
        assert forall|i: int, j: int|
            #![trigger t[i], t[j]]
            0 <= i < t.len() && 0 <= j < t.len() && t[i].id@ == t[j].id@ implies i == j by {
            if i < s.len() && j < s.len() {
                assert(s[i] == t[i] && s[j] == t[j]);
            } else if i < s.len() {
                assert(s[i] == t[i]);
            } else if j < s.len() {
                assert(s[j] == t[j]);
            }
        }
    }
    let m = jobs_map(s).insert(job.id@, job);
    assert forall|k: Seq<char>| jobs_map(t).contains_key(k) <==> m.contains_key(k) by {
        if jobs_map(t).contains_key(k) {
            let i = choose|i: int| 0 <= i < t.len() && (#[trigger] t[i]).id@ == k;
            if i < s.len() {
                assert(s[i] == t[i]);
                lemma_map_at(s, i);
            }
        }
        if m.contains_key(k) {
            if k == job.id@ {
                assert(t[s.len() as int] == job);
            } else {
                let i = choose|i: int| 0 <= i < s.len() && (#[trigger] s[i]).id@ == k;
                assert(t[i] == s[i]);
            }
        }
    }
    assert forall|k: Seq<char>| jobs_map(t).contains_key(k) implies jobs_map(t)[k] == m[k] by {
        let i = choose|i: int| 0 <= i < t.len() && (#[trigger] t[i]).id@ == k;
        lemma_map_at(t, i);
        if i < s.len() {
            assert(s[i] == t[i]);
            lemma_map_at(s, i);
        }
    }
    assert(jobs_map(t) =~= m);
}

proof fn lemma_map_update(s: Seq<TrainingJob>, i: int, job: TrainingJob)
    requires
        ids_unique(s),
        0 <= i < s.len(),
        job.id@ == s[i].id@,
    ensures
        ids_unique(s.update(i, job)),
        jobs_map(s.update(i, job)) == jobs_map(s).insert(job.id@, job),
{
    let t = s.update(i, job);
    assert(ids_unique(t)) by {
        assert forall|a: int, b: int|
            #![trigger t[a], t[b]]
            0 <= a < t.len() && 0 <= b < t.len() && t[a].id@ == t[b].id@ implies a == b by {
            assert(t[a].id@ == s[a].id@);
            assert(t[b].id@ == s[b].id@);
        }
    }
    lemma_map_at(s, i);
    let m = jobs_map(s).insert(job.id@, job);
    assert forall|k: Seq<char>| jobs_map(t).contains_key(k) <==> m.contains_key(k) by {
        if jobs_map(t).contains_key(k) {
            let a = choose|a: int| 0 <= a < t.len() && (#[trigger] t[a]).id@ == k;
            assert(t[a].id@ == s[a].id@);
            lemma_map_at(s, a);
        }
        if m.contains_key(k) && k != job.id@ {
            let a = choose|a: int| 0 <= a < s.len() && (#[trigger] s[a]).id@ == k;
            assert(t[a].id@ == s[a].id@);
        }
        if k == job.id@ {
            assert(t[i].id@ == k);
        }
    }
    assert forall|k: Seq<char>| jobs_map(t).contains_key(k) implies jobs_map(t)[k] == m[k] by {
        let a = choose|a: int| 0 <= a < t.len() && (#[trigger] t[a]).id@ == k;
        lemma_map_at(t, a);
        if a != i {
            assert(t[a] == s[a]);
            lemma_map_at(s, a);
        }
    }
    assert(jobs_map(t) =~= m);
}

/// `job` is the job just created under `id` for `request`.
pub open spec fn is_new_job(job: TrainingJob, id: Seq<char>, request: TrainingRequest) -> bool {
    &&& job.id@ == id
    &&& job.name@ == request.model_name@
    &&& job.status == TrainingStatus::Pending
    &&& job.epochs_done == 0
    &&& job.epochs_total == request.config.epochs
    &&& job.started_at is None
    &&& job.completed_at is None
    &&& job.output_model_path is None
    &&& job.error_message is None
    &&& job.estimated_time == Some(estimated_seconds(request.config.epochs as nat, request.config.batch_size as nat) as u64)
}

/// A job may be cancelled unless it has completed or failed.
pub open spec fn cancellable(status: TrainingStatus) -> bool {
    status != TrainingStatus::Completed && status != TrainingStatus::Failed
}

/// `job` marked as preparing since `t`.
pub open spec fn preparing(job: TrainingJob, t: Timestamp) -> TrainingJob {
    TrainingJob { status: TrainingStatus::Preparing, started_at: Some(t), ..job }
}

/// `job` marked as training.
pub open spec fn training(job: TrainingJob) -> TrainingJob {
    TrainingJob { status: TrainingStatus::Training, ..job }
}

/// `job` with `epoch` of `total` epochs done.
pub open spec fn epoch_done(job: TrainingJob, epoch: u32, total: u32) -> TrainingJob {
    TrainingJob { epochs_done: epoch, epochs_total: total, ..job }
}

/// `job` marked as exporting its model.
pub open spec fn exporting(job: TrainingJob) -> TrainingJob {
    TrainingJob { status: TrainingStatus::Exporting, ..job }
}

/// `job` is `before` completed at `t`, with all `total` epochs done and its
/// model at `path`.
pub open spec fn is_completed(job: TrainingJob, before: TrainingJob, total: u32, path: Seq<char>, t: Timestamp) -> bool {
    &&& job.id == before.id
    &&& job.name == before.name
    &&& job.status == TrainingStatus::Completed
    &&& job.epochs_done == total
    &&& job.epochs_total == total
    &&& job.created_at == before.created_at
    &&& job.started_at == before.started_at
    &&& job.completed_at == Some(t)
    &&& job.output_model_path matches Some(p) && p@ == path
    &&& job.error_message == before.error_message
    &&& job.estimated_time == before.estimated_time
}

/// `job` cancelled at `t`.
pub open spec fn cancelled(job: TrainingJob, t: Timestamp) -> TrainingJob {
    TrainingJob { status: TrainingStatus::Cancelled, completed_at: Some(t), ..job }
}

impl TrainingService {
    /// The jobs, each under its identifier.
    pub closed spec fn jobs(&self) -> Map<Seq<char>, TrainingJob> {
        jobs_map(self.jobs@)
    }

    /// The directory under which jobs work.
    pub closed spec fn dir(&self) -> Seq<char> {
        self.training_dir@
    }

    /// Every job is stored under its own identifier, and only once.
    #[verifier::type_invariant]
    spec fn wf(&self) -> bool {
        ids_unique(self.jobs@)
    }

    /// Every job is stored under its own identifier.
    pub proof fn lemma_jobs_under_own_id(&self)
        ensures
            forall|k: Seq<char>| #[trigger] self.jobs().contains_key(k) ==> self.jobs()[k].id@ == k,
    {
        assert forall|k: Seq<char>| #[trigger] self.jobs().contains_key(k) implies self.jobs()[k].id@ == k by {
            let s = self.jobs@;
            let i = choose|i: int| 0 <= i < s.len() && (#[trigger] s[i]).id@ == k;
            assert(s[i].id@ == k);
        }
    }

    /// A service with no jobs, whose jobs work under `training_dir`.
    pub fn new(training_dir: &str) -> (res: TrainingService)
        ensures
            res.jobs() == Map::<Seq<char>, TrainingJob>::empty(),
            res.dir() == training_dir@,
    {
        let res = TrainingService { training_dir: String::from_str(training_dir), jobs: Vec::new() };
        proof {
            assert(jobs_map(res.jobs@) =~= Map::<Seq<char>, TrainingJob>::empty());
        }
        res
    }

    /// A fresh job identifier and the job's working directory.
    pub fn job_plan(&self) -> (res: JobPlan)
        ensures
            is_uuid_v4_text(res.job_id@),
            res.job_dir@ == path_join(self.dir(), res.job_id@),
    {
        let job_id = new_uuid();
        let job_dir = join_path(self.training_dir.as_str(), job_id.as_str());
        JobPlan { job_id, job_dir }
    }

    fn position(&self, job_id: &str) -> (res: Option<usize>)
        ensures
            match res {
                Some(i) => i < self.jobs@.len() && self.jobs@[i as int].id@ == job_id@
                    && self.jobs().contains_key(job_id@) && self.jobs()[job_id@] == self.jobs@[i as int],
                None => !self.jobs().contains_key(job_id@),
            },
    {
        proof {
            use_type_invariant(self);
        }
        let target = String::from_str(job_id);
        let mut i: usize = 0;
        while i < self.jobs.len()
            invariant
                ids_unique(self.jobs@),
                target@ == job_id@,
                i <= self.jobs@.len(),
                forall|j: int| 0 <= j < i ==> (#[trigger] self.jobs@[j]).id@ != job_id@,
            decreases self.jobs@.len() - i,
        {
            if self.jobs[i].id == target {
                proof {
                    lemma_map_at(self.jobs@, i as int);
                }
                return Some(i);
            }
            i = i + 1;
        }
        proof {
            lemma_map_absent(self.jobs@, job_id@);
        }
        None
    }

    fn replace_at(&mut self, i: usize, job: TrainingJob)
        requires
            i < old(self).jobs@.len(),
            job.id@ == old(self).jobs@[i as int].id@,
        ensures
            final(self).jobs() == old(self).jobs().insert(job.id@, job),
            final(self).dir() == old(self).dir(),
    {
        proof {
            use_type_invariant(&*self);
            lemma_map_update(self.jobs@, i as int, job);
        }
        let mut jobs: Vec<TrainingJob> = Vec::new();
        std::mem::swap(&mut jobs, &mut self.jobs);
        jobs.set(i, job);
        self.jobs = jobs;
    }

    fn add(&mut self, job: TrainingJob)
        requires
            !old(self).jobs().contains_key(job.id@),
        ensures
            final(self).jobs() == old(self).jobs().insert(job.id@, job),
            final(self).dir() == old(self).dir(),
    {
        proof {
            use_type_invariant(&*self);
            lemma_map_push(self.jobs@, job);
        }
        let mut jobs: Vec<TrainingJob> = Vec::new();
        std::mem::swap(&mut jobs, &mut self.jobs);
        jobs.push(job);
        self.jobs = jobs;
    }

    /// Records a new job for `request` under `job_id`, replacing any job
    /// already there, created now, and hands back a copy of it.
    pub fn start_training(&mut self, job_id: String, request: &TrainingRequest) -> (res: TrainingJob)
        requires
            request.config.batch_size > 0 || request.config.epochs == 0,
        ensures
            is_new_job(res, job_id@, *request),
            final(self).jobs().contains_key(job_id@),
            final(self).jobs()[job_id@] == res,
            final(self).jobs() == old(self).jobs().insert(job_id@, res),
            final(self).dir() == old(self).dir(),
    {
        let now = utc_now();
        self.start_training_at(job_id, request, now)
    }

    /// Records a new job for `request` under `job_id`, replacing any job
    /// already there, created at `created_at`, and hands back a copy of it.
    pub fn start_training_at(&mut self, job_id: String, request: &TrainingRequest, created_at: Timestamp) -> (res: TrainingJob)
        requires
            request.config.batch_size > 0 || request.config.epochs == 0,
        ensures
            is_new_job(res, job_id@, *request),
            res.created_at == created_at,
            final(self).jobs().contains_key(job_id@),
            final(self).jobs()[job_id@] == res,
            final(self).jobs() == old(self).jobs().insert(job_id@, res),
            final(self).dir() == old(self).dir(),
    {
        let estimated = estimate_training_time(&request.config);
        let job = TrainingJob {
            id: job_id,
            name: request.model_name.clone(),
            status: TrainingStatus::Pending,
            epochs_done: 0,
            epochs_total: request.config.epochs,
            created_at,
            started_at: None,
            completed_at: None,
            output_model_path: None,
            error_message: None,
            estimated_time: Some(estimated),
        };
        let copy = job.duplicate();
        match self.position(job.id.as_str()) {
            Some(i) => {
                self.replace_at(i, job);
            },
            None => {
                self.add(job);
            },
        }
        copy
    }

    /// The state of job `job_id`, or `NotFound`.
    pub fn get_status(&self, job_id: &str) -> (res: Result<TrainingStatusResponse, AppError>)
        ensures
            match res {
                Ok(r) => self.jobs().contains_key(job_id@) && {
                    let job = self.jobs()[job_id@];
                    &&& r.training_id == job.id
                    &&& r.training_id@ == job_id@
                    &&& r.status == job.status
                    &&& r.epochs_done == job.epochs_done
                    &&& r.epochs_total == job.epochs_total
                    &&& r.total_epochs == 1000
                    &&& r.estimated_time_remaining == job.estimated_time
                },
                Err(e) => !self.jobs().contains_key(job_id@)
                    && is_not_found(e, "Training job not found: "@ + job_id@),
            },
    {
        match self.position(job_id) {
            Some(i) => {
                let job = &self.jobs[i];
                Ok(TrainingStatusResponse {
                    training_id: job.id.clone(),
                    status: job.status,
                    epochs_done: job.epochs_done,
                    epochs_total: job.epochs_total,
                    total_epochs: 1000,
                    estimated_time_remaining: job.estimated_time,
                })
            },
            None => Err(AppError::NotFound(concat("Training job not found: ", job_id))),
        }
    }

    /// Cancels job `job_id`: `NotFound` when there is no such job,
    /// `BadRequest` when it has completed or failed; otherwise the job is
    /// marked cancelled at the current time.
    pub fn cancel_training(&mut self, job_id: &str) -> (res: Result<(), AppError>)
        ensures
            final(self).dir() == old(self).dir(),
            !old(self).jobs().contains_key(job_id@) ==> {
                &&& res matches Err(e) && is_not_found(e, "Training job not found: "@ + job_id@)
                &&& final(self).jobs() == old(self).jobs()
            },
            old(self).jobs().contains_key(job_id@) && !cancellable(old(self).jobs()[job_id@].status) ==> {
                &&& res matches Err(e) && is_bad_request(
                    e,
                    "Cannot cancel job in "@ + old(self).jobs()[job_id@].status.name_spec() + " state"@,
                )
                &&& final(self).jobs() == old(self).jobs()
            },
            old(self).jobs().contains_key(job_id@) && cancellable(old(self).jobs()[job_id@].status) ==> {
                &&& res is Ok
                &&& exists|t: Timestamp| final(self).jobs() == old(self).jobs().insert(job_id@, cancelled(old(self).jobs()[job_id@], t))
            },
            old(self).jobs().contains_key(job_id@)
                && old(self).jobs()[job_id@].status != TrainingStatus::Completed
                && old(self).jobs()[job_id@].status != TrainingStatus::Failed ==> {
                &&& res is Ok
                &&& final(self).jobs().contains_key(job_id@)
                &&& final(self).jobs()[job_id@].status == TrainingStatus::Cancelled
                &&& final(self).jobs()[job_id@].completed_at is Some
            },
    {
        let now = utc_now();
        self.cancel_training_at(job_id, now)
    }

    /// Cancels job `job_id`: `NotFound` when there is no such job,
    /// `BadRequest` when it has completed or failed; otherwise the job is
    /// marked cancelled at `now`.
    pub fn cancel_training_at(&mut self, job_id: &str, now: Timestamp) -> (res: Result<(), AppError>)
        ensures
            final(self).dir() == old(self).dir(),
            !old(self).jobs().contains_key(job_id@) ==> {
                &&& res matches Err(e) && is_not_found(e, "Training job not found: "@ + job_id@)
                &&& final(self).jobs() == old(self).jobs()
            },
            old(self).jobs().contains_key(job_id@) && !cancellable(old(self).jobs()[job_id@].status) ==> {
                &&& res matches Err(e) && is_bad_request(
                    e,
                    "Cannot cancel job in "@ + old(self).jobs()[job_id@].status.name_spec() + " state"@,
                )
                &&& final(self).jobs() == old(self).jobs()
            },
            old(self).jobs().contains_key(job_id@) && cancellable(old(self).jobs()[job_id@].status) ==> {
                &&& res is Ok
                &&& final(self).jobs() == old(self).jobs().insert(job_id@, cancelled(old(self).jobs()[job_id@], now))
            },
            old(self).jobs().contains_key(job_id@)
                && old(self).jobs()[job_id@].status != TrainingStatus::Completed
                && old(self).jobs()[job_id@].status != TrainingStatus::Failed ==> {
                &&& res is Ok
                &&& final(self).jobs().contains_key(job_id@)
                &&& final(self).jobs()[job_id@].status == TrainingStatus::Cancelled
                &&& final(self).jobs()[job_id@].completed_at == Some(now)
            },
    {
        match self.position(job_id) {
            None => Err(AppError::NotFound(concat("Training job not found: ", job_id))),
            Some(i) => {
                let status = self.jobs[i].status;
                if status == TrainingStatus::Completed || status == TrainingStatus::Failed {
                    let head = concat("Cannot cancel job in ", status.name());
                    return Err(AppError::BadRequest(concat(head.as_str(), " state")));
                }
                let mut job = self.jobs[i].duplicate();
                job.status = TrainingStatus::Cancelled;
                job.completed_at = Some(now);
                proof {
                    assert(job == cancelled(old(self).jobs()[job_id@], now));
                }
                self.replace_at(i, job);
                Ok(())
            },
        }
    }

    /// Copies of all jobs, each once.
    pub fn list_jobs(&self) -> (res: Result<Vec<TrainingJob>, AppError>)
        ensures
            res matches Ok(v) && {
                &&& ids_unique(v@)
                &&& jobs_map(v@) == self.jobs()
            },
    {
        proof {
            use_type_invariant(self);
        }
        let mut out: Vec<TrainingJob> = Vec::new();
        let mut i: usize = 0;
        while i < self.jobs.len()
            invariant
                ids_unique(self.jobs@),
                i <= self.jobs@.len(),
                out@ == self.jobs@.take(i as int),
            decreases self.jobs@.len() - i,
        {
            out.push(self.jobs[i].duplicate());
            proof {
                assert(out@ =~= self.jobs@.take(i + 1));
            }
            i = i + 1;
        }
        proof {
            assert(self.jobs@.take(i as int) =~= self.jobs@);
        }
        Ok(out)
    }

    /// Marks job `job_id`, when there is one, as preparing since now.
    pub fn mark_preparing(&mut self, job_id: &str)
        ensures
            final(self).dir() == old(self).dir(),
            old(self).jobs().contains_key(job_id@) ==> exists|t: Timestamp|
                final(self).jobs() == old(self).jobs().insert(job_id@, preparing(old(self).jobs()[job_id@], t)),
            !old(self).jobs().contains_key(job_id@) ==> final(self).jobs() == old(self).jobs(),
    {
        let now = utc_now();
        self.mark_preparing_at(job_id, now)
    }

    /// Marks job `job_id`, when there is one, as preparing since `now`.
    pub fn mark_preparing_at(&mut self, job_id: &str, now: Timestamp)
        ensures
            final(self).dir() == old(self).dir(),
            old(self).jobs().contains_key(job_id@) ==>
                final(self).jobs() == old(self).jobs().insert(job_id@, preparing(old(self).jobs()[job_id@], now)),
            !old(self).jobs().contains_key(job_id@) ==> final(self).jobs() == old(self).jobs(),
    {
        if let Some(i) = self.position(job_id) {
            let mut job = self.jobs[i].duplicate();
            job.status = TrainingStatus::Preparing;
            job.started_at = Some(now);
            proof {
                assert(job == preparing(old(self).jobs()[job_id@], now));
            }
            self.replace_at(i, job);
        }
    }

    /// Marks job `job_id`, when there is one, as training; the runner then
    /// waits for the first of `total_epochs` epochs, or stops when there are none.
    pub fn mark_training(&mut self, job_id: &str, total_epochs: u32) -> (res: RunnerAction)
        ensures
            final(self).dir() == old(self).dir(),
            old(self).jobs().contains_key(job_id@) ==>
                final(self).jobs() == old(self).jobs().insert(job_id@, training(old(self).jobs()[job_id@])),
            !old(self).jobs().contains_key(job_id@) ==> final(self).jobs() == old(self).jobs(),
            total_epochs >= 1 ==> (res matches RunnerAction::SleepThenEpoch(e) && e == 1),
            total_epochs == 0 ==> res is Finish,
    {
        if let Some(i) = self.position(job_id) {
            let mut job = self.jobs[i].duplicate();
            job.status = TrainingStatus::Training;
            self.replace_at(i, job);
        }
        if total_epochs >= 1 {
            RunnerAction::SleepThenEpoch(1)
        } else {
            RunnerAction::Finish
        }
    }

    /// Records that `epoch` of `total_epochs` epochs of job `job_id` is done;
    /// the runner then waits for the next epoch, or exports after the last.
    pub fn finish_epoch(&mut self, job_id: &str, epoch: u32, total_epochs: u32) -> (res: RunnerAction)
        requires
            1 <= epoch <= total_epochs,
        ensures
            final(self).dir() == old(self).dir(),
            old(self).jobs().contains_key(job_id@) ==>
                final(self).jobs() == old(self).jobs().insert(job_id@, epoch_done(old(self).jobs()[job_id@], epoch, total_epochs)),
            !old(self).jobs().contains_key(job_id@) ==> final(self).jobs() == old(self).jobs(),
            epoch < total_epochs ==> (res matches RunnerAction::SleepThenEpoch(e) && e == epoch + 1),
            epoch == total_epochs ==> res is Export,
    {
        if let Some(i) = self.position(job_id) {
            let mut job = self.jobs[i].duplicate();
            job.epochs_done = epoch;
            job.epochs_total = total_epochs;
            self.replace_at(i, job);
        }
        if epoch < total_epochs {
            RunnerAction::SleepThenEpoch(epoch + 1)
        } else {
            RunnerAction::Export
        }
    }

    /// Marks job `job_id`, when there is one, as exporting; the runner then
    /// writes the model as `model.pth` in the job's directory.
    pub fn mark_exporting(&mut self, job_id: &str, job_dir: &str) -> (res: RunnerAction)
        ensures
            final(self).dir() == old(self).dir(),
            old(self).jobs().contains_key(job_id@) ==>
                final(self).jobs() == old(self).jobs().insert(job_id@, exporting(old(self).jobs()[job_id@])),
            !old(self).jobs().contains_key(job_id@) ==> final(self).jobs() == old(self).jobs(),
            res matches RunnerAction::WriteModel(p) && p@ == path_join(job_dir@, "model.pth"@),
    {
        if let Some(i) = self.position(job_id) {
            let mut job = self.jobs[i].duplicate();
            job.status = TrainingStatus::Exporting;
            self.replace_at(i, job);
        }
        RunnerAction::WriteModel(join_path(job_dir, "model.pth"))
    }

    /// Marks job `job_id`, when there is one, as completed now: all
    /// `total_epochs` epochs done and its model at `model_path`.
    pub fn mark_completed(&mut self, job_id: &str, total_epochs: u32, model_path: &str) -> (res: RunnerAction)
        ensures
            final(self).dir() == old(self).dir(),
            old(self).jobs().contains_key(job_id@) ==> exists|job: TrainingJob, t: Timestamp| {
                &&& is_completed(job, old(self).jobs()[job_id@], total_epochs, model_path@, t)
                &&& final(self).jobs() == old(self).jobs().insert(job_id@, job)
            },
            !old(self).jobs().contains_key(job_id@) ==> final(self).jobs() == old(self).jobs(),
            res is Finish,
    {
        let now = utc_now();
        self.mark_completed_at(job_id, total_epochs, model_path, now)
    }

    /// Marks job `job_id`, when there is one, as completed at `now`:
    /// all `total_epochs` epochs done and its model at `model_path`.
    pub fn mark_completed_at(&mut self, job_id: &str, total_epochs: u32, model_path: &str, now: Timestamp) -> (res: RunnerAction)
        ensures
            final(self).dir() == old(self).dir(),
            old(self).jobs().contains_key(job_id@) ==> exists|job: TrainingJob| {
                &&& is_completed(job, old(self).jobs()[job_id@], total_epochs, model_path@, now)
                &&& final(self).jobs() == old(self).jobs().insert(job_id@, job)
            },
            !old(self).jobs().contains_key(job_id@) ==> final(self).jobs() == old(self).jobs(),
            res is Finish,
    {
        if let Some(i) = self.position(job_id) {
            let mut job = self.jobs[i].duplicate();
            job.status = TrainingStatus::Completed;
            job.completed_at = Some(now);
            job.epochs_done = total_epochs;
            job.epochs_total = total_epochs;
            job.output_model_path = Some(String::from_str(model_path));
            proof {
                assert(is_completed(job, old(self).jobs()[job_id@], total_epochs, model_path@, now));
            }
            self.replace_at(i, job);
        }
        RunnerAction::Finish
    }
}

} // verus!
