//! The web service's record of upload jobs, and what it reports of them.

use vstd::prelude::*;

use crate::clock::Timestamp;

verus! {

/// Where a job stands.
#[derive(Debug, Clone, Copy, PartialEq, Eq, Structural)]
pub enum JobState {
    Queued,
    Processing,
    Completed,
    Failed,
}

/// The word the service uses for a job state.
pub open spec fn state_text(s: JobState) -> Seq<char> {
    match s {
        JobState::Queued => "queued"@,
        JobState::Processing => "processing"@,
        JobState::Completed => "completed"@,
        JobState::Failed => "failed"@,
    }
}

impl JobState {
    /// The word for this state, as the status API reports it.
    pub fn as_str(&self) -> (res: &'static str)
        ensures
            res@ == state_text(*self),
    {
        match self {
            JobState::Queued => "queued",
            JobState::Processing => "processing",
            JobState::Completed => "completed",
            JobState::Failed => "failed",
        }
    }
}

/// The abstract contents of a job.
pub struct JobRecord {
    pub id: Seq<char>,
    pub status: JobState,
    pub progress: u8,
    pub output_file: Option<Seq<char>>,
    pub input_file: Option<Seq<char>>,
    pub original_filename: Option<Seq<char>>,
    pub error: Option<Seq<char>>,
    pub created_at: Timestamp,
    pub speed_bits: u64,
}

/// The view of an optional string.
pub open spec fn opt_view(o: Option<String>) -> Option<Seq<char>> {
    match o {
        Some(s) => Some(s@),
        None => None,
    }
}

impl JobRecord {
    /// How the fields of a job hang together in each state: a queued job
    /// has no progress, output or error; a processing one is at 5%; a
    /// completed one is at 100% and has its output file; a failed one has
    /// its error message.
    pub open spec fn well_formed(self) -> bool {
        &&& self.status == JobState::Queued ==> {
            &&& self.progress == 0
            &&& self.output_file is None
            &&& self.error is None
        }
        &&& self.status == JobState::Processing ==> self.progress == 5
        &&& self.status == JobState::Completed ==> {
            &&& self.progress == 100
            &&& self.output_file is Some
        }
        &&& self.status == JobState::Failed ==> self.error is Some
    }

    /// The job once its processing has started.
    pub open spec fn started(self) -> JobRecord {
        JobRecord { status: JobState::Processing, progress: 5, ..self }
    }

    /// The job once its output has been written to `output_file`.
    pub open spec fn completed(self, output_file: Seq<char>) -> JobRecord {
        JobRecord { status: JobState::Completed, progress: 100, output_file: Some(output_file), ..self }
    }

    /// The job once its processing has failed with `error`.
    pub open spec fn failed(self, error: Seq<char>) -> JobRecord {
        JobRecord { status: JobState::Failed, error: Some(error), ..self }
    }
}

/// One video conversion that was asked for through the web service.
pub struct JobStatus {
    id: String,
    status: JobState,
    progress: u8,
    output_file: Option<String>,
    input_file: Option<String>,
    original_filename: Option<String>,
    error: Option<String>,
    created_at: Timestamp,
    speed_bits: u64,
}

impl View for JobStatus {
    type V = JobRecord;

    closed spec fn view(&self) -> JobRecord {
        JobRecord {
            id: self.id@,
            status: self.status,
            progress: self.progress,
            output_file: opt_view(self.output_file),
            input_file: opt_view(self.input_file),
            original_filename: opt_view(self.original_filename),
            error: opt_view(self.error),
            created_at: self.created_at,
            speed_bits: self.speed_bits,
        }
    }
}

fn clone_opt(o: &Option<String>) -> (res: Option<String>)
    ensures
        opt_view(res) == opt_view(*o),
{
    match o {
        Some(s) => Some(s.clone()),
        None => None,
    }
}

impl JobStatus {
    #[verifier::type_invariant]
    spec fn inv(self) -> bool {
        self@.well_formed()
    }

    /// A new job, queued: it has its stored input and the name the file was
    /// uploaded under, and no progress, output or error yet. `speed_bits`
    /// holds the IEEE 754 bits of the speed factor.
    pub fn queued(
        id: String,
        input_file: String,
        original_filename: String,
        created_at: Timestamp,
        speed_bits: u64,
    ) -> (res: JobStatus)
        ensures
            res@ == (JobRecord {
                id: id@,
                status: JobState::Queued,
                progress: 0,
                output_file: None,
                input_file: Some(input_file@),
                original_filename: Some(original_filename@),
                error: None,
                created_at,
                speed_bits,
            }),
    {
        JobStatus {
            id,
            status: JobState::Queued,
            progress: 0,
            output_file: None,
            input_file: Some(input_file),
            original_filename: Some(original_filename),
            error: None,
            created_at,
            speed_bits,
        }
    }

    pub fn id(&self) -> (res: &str)
        ensures
            res@ == self@.id,
    {
        self.id.as_str()
    }

    pub fn status(&self) -> (res: JobState)
        ensures
            res == self@.status,
    {
        self.status
    }

    pub fn progress(&self) -> (res: u8)
        ensures
            res == self@.progress,
    {
        self.progress
    }

    pub fn output_file(&self) -> (res: Option<String>)
        ensures
            opt_view(res) == self@.output_file,
    {
        clone_opt(&self.output_file)
    }

    pub fn input_file(&self) -> (res: Option<String>)
        ensures
            opt_view(res) == self@.input_file,
    {
        clone_opt(&self.input_file)
    }

    pub fn original_filename(&self) -> (res: Option<String>)
        ensures
            opt_view(res) == self@.original_filename,
    {
        clone_opt(&self.original_filename)
    }

    pub fn error(&self) -> (res: Option<String>)
        ensures
            opt_view(res) == self@.error,
    {
        clone_opt(&self.error)
    }

    pub fn created_at(&self) -> (res: Timestamp)
        ensures
            res == self@.created_at,
    {
        self.created_at
    }

    pub fn speed_bits(&self) -> (res: u64)
        ensures
            res == self@.speed_bits,
    {
        self.speed_bits
    }

    fn copy(&self) -> (res: JobStatus)
        ensures
            res@ == self@,
    {
        proof {
            use_type_invariant(self);
        }
        JobStatus {
            id: self.id.clone(),
            status: self.status,
            progress: self.progress,
            output_file: clone_opt(&self.output_file),
            input_file: clone_opt(&self.input_file),
            original_filename: clone_opt(&self.original_filename),
            error: clone_opt(&self.error),
            created_at: self.created_at,
            speed_bits: self.speed_bits,
        }
    }

    fn start(&self) -> (res: JobStatus)
        ensures
            res@ == self@.started(),
    {
        let job = self.copy();
        JobStatus { status: JobState::Processing, progress: 5, ..job }
    }

    fn complete(&self, output_file: String) -> (res: JobStatus)
        ensures
            res@ == self@.completed(output_file@),
    {
        let job = self.copy();
        JobStatus { status: JobState::Completed, progress: 100, output_file: Some(output_file), ..job }
    }

    fn fail(&self, error: String) -> (res: JobStatus)
        ensures
            res@ == self@.failed(error@),
    {
        proof {
            use_type_invariant(self);
        }
        let job = self.copy();
        JobStatus { status: JobState::Failed, error: Some(error), ..job }
    }
}

/// No two jobs in the list share an id.
pub open spec fn ids_unique(s: Seq<JobStatus>) -> bool {
    forall|i: int, j: int| 0 <= i < j < s.len() ==> s[i]@.id != s[j]@.id
}

/// The jobs of a list, filed under their ids.
pub open spec fn records_of(s: Seq<JobStatus>) -> Map<Seq<char>, JobRecord>
    decreases s.len(),
{
    if s.len() == 0 {
        Map::empty()
    } else {
        records_of(s.drop_last()).insert(s.last()@.id, s.last()@)
    }
}

/// Every job is filed under its own id and hangs together.
pub open spec fn records_well_formed(m: Map<Seq<char>, JobRecord>) -> bool {
    forall|k: Seq<char>| #[trigger] m.contains_key(k) ==> m[k].id == k && m[k].well_formed()
}

proof fn lemma_records_lookup(s: Seq<JobStatus>, i: int)
    requires
        ids_unique(s),
        0 <= i < s.len(),
    ensures
        records_of(s).contains_key(s[i]@.id),
        records_of(s)[s[i]@.id] == s[i]@,
    decreases s.len(),
{
    if i < s.len() - 1 {
        lemma_records_lookup(s.drop_last(), i);
        assert(s.drop_last()[i] == s[i]);
        assert(s[i]@.id != s.last()@.id);
    }
}

proof fn lemma_records_keys(s: Seq<JobStatus>, k: Seq<char>)
    ensures
        records_of(s).contains_key(k) <==> exists|i: int| 0 <= i < s.len() && s[i]@.id == k,
    decreases s.len(),
{
    if s.len() > 0 {
        lemma_records_keys(s.drop_last(), k);
        if exists|i: int| 0 <= i < s.len() && s[i]@.id == k {
            let i = choose|i: int| 0 <= i < s.len() && s[i]@.id == k;
            if i < s.len() - 1 {
                assert(s.drop_last()[i] == s[i]);
            }
        }
        if exists|i: int| 0 <= i < s.len() - 1 && s.drop_last()[i]@.id == k {
            let i = choose|i: int| 0 <= i < s.len() - 1 && s.drop_last()[i]@.id == k;
            assert(s[i] == s.drop_last()[i]);
        }
    }
}

proof fn lemma_records_update(s: Seq<JobStatus>, i: int, x: JobStatus)
    requires
        ids_unique(s),
        0 <= i < s.len(),
        x@.id == s[i]@.id,
    ensures
        records_of(s.update(i, x)) =~= records_of(s).insert(x@.id, x@),
    decreases s.len(),
{
    let t = s.update(i, x);
    if i == s.len() - 1 {
        assert(t.drop_last() =~= s.drop_last());
    } else {
        assert(t.drop_last() =~= s.drop_last().update(i, x));
        assert(ids_unique(s.drop_last()));
        lemma_records_update(s.drop_last(), i, x);
        assert(s[i]@.id != s.last()@.id);
    }
}

proof fn lemma_records_well_formed(s: Seq<JobStatus>)
    requires
        ids_unique(s),
        forall|i: int| 0 <= i < s.len() ==> (#[trigger] s[i])@.well_formed(),
    ensures
        records_well_formed(records_of(s)),
{
    assert forall|k: Seq<char>| #[trigger] records_of(s).contains_key(k) implies
        records_of(s)[k].id == k && records_of(s)[k].well_formed() by {
        lemma_records_keys(s, k);
        let i = choose|i: int| 0 <= i < s.len() && s[i]@.id == k;
        lemma_records_lookup(s, i);
    }
}

/// What the status query reports of a job.
pub struct StatusReport {
    pub status: JobState,
    pub progress: u8,
    pub error: Option<String>,
    pub completed: bool,
    pub speed_bits: u64,
    pub original_filename: Option<String>,
}

/// A report says what the record holds, and that the job is completed
/// exactly when its state is.
pub open spec fn report_of(r: StatusReport, rec: JobRecord) -> bool {
    &&& r.status == rec.status
    &&& r.progress == rec.progress
    &&& opt_view(r.error) == rec.error
    &&& r.completed == (rec.status == JobState::Completed)
    &&& r.speed_bits == rec.speed_bits
    &&& opt_view(r.original_filename) == rec.original_filename
}

/// A finished video that can be downloaded.
pub struct DownloadTarget {
    pub output_file: String,
    pub original_filename: Option<String>,
    pub speed_bits: u64,
}

/// The file offered for download for `id`: the output of a completed job,
/// and nothing for an unknown or unfinished one.
pub open spec fn download_path(m: Map<Seq<char>, JobRecord>, id: Seq<char>) -> Option<Seq<char>> {
    if m.contains_key(id) && m[id].status == JobState::Completed {
        m[id].output_file
    } else {
        None
    }
}

/// The store once the job filed under `id` has become `next`; the store as
/// it was where there is no such job.
pub open spec fn after_transition(m: Map<Seq<char>, JobRecord>, id: Seq<char>, next: JobRecord) -> Map<Seq<char>, JobRecord> {
    if m.contains_key(id) {
        m.insert(id, next)
    } else {
        m
    }
}

/// All the jobs of the service, found by id.
pub struct JobStore {
    jobs: Vec<JobStatus>,
}

impl View for JobStore {
    type V = Map<Seq<char>, JobRecord>;

    closed spec fn view(&self) -> Map<Seq<char>, JobRecord> {
        records_of(self.jobs@)
    }
}

impl JobStore {
    #[verifier::type_invariant]
    spec fn inv(self) -> bool {
        &&& ids_unique(self.jobs@)
        &&& forall|i: int| 0 <= i < self.jobs@.len() ==> (#[trigger] self.jobs@[i])@.well_formed()
    }

    /// A store without jobs.
    pub fn new() -> (res: JobStore)
        ensures
            res@ == Map::<Seq<char>, JobRecord>::empty(),
    {
        JobStore { jobs: Vec::new() }
    }

    /// Every job in the store is filed under its own id and hangs together.
    fn check_well_formed(&self)
        ensures
            records_well_formed(self@),
    {
        proof {
            use_type_invariant(self);
            lemma_records_well_formed(self.jobs@);
        }
    }

    fn find(&self, id: &str) -> (res: Option<usize>)
        ensures
            match res {
                Some(i) => i < self.jobs@.len() && self.jobs@[i as int]@.id == id@,
                None => forall|i: int| 0 <= i < self.jobs@.len() ==> self.jobs@[i]@.id != id@,
            },
    {
        let key = id.to_owned();
        let n = self.jobs.len();
        for i in 0..n
            invariant
                n == self.jobs@.len(),
                key@ == id@,
                forall|j: int| 0 <= j < i ==> self.jobs@[j]@.id != id@,
        {
            if self.jobs[i].id == key {
                return Some(i);
            }
        }
        None
    }

    fn replace_at(&mut self, i: usize, job: JobStatus)
        requires
            i < old(self).jobs@.len(),
            job@.id == old(self).jobs@[i as int]@.id,
        ensures
            final(self)@ == old(self)@.insert(job@.id, job@),
    {
        proof {
            use_type_invariant(&*self);
            use_type_invariant(&job);
            lemma_records_update(self.jobs@, i as int, job);
        }
        let mut jobs: Vec<JobStatus> = Vec::new();
        std::mem::swap(&mut jobs, &mut self.jobs);
        jobs.set(i, job);
        proof {
            assert forall|a: int, b: int| 0 <= a < b < jobs@.len() implies jobs@[a]@.id != jobs@[b]@.id by {
                if a != i && b != i {
                    assert(jobs@[a] == old(self).jobs@[a]);
                    assert(jobs@[b] == old(self).jobs@[b]);
                }
            }
        }
        self.jobs = jobs;
    }

    /// Files `job` under its id, in place of any job with that id.
    pub fn insert(&mut self, job: JobStatus)
        ensures
            final(self)@ == old(self)@.insert(job@.id, job@),
            records_well_formed(final(self)@),
    {
        proof {
            use_type_invariant(&*self);
            use_type_invariant(&job);
        }
        match self.find(job.id.as_str()) {
            Some(i) => self.replace_at(i, job),
            None => {
                let mut jobs: Vec<JobStatus> = Vec::new();
                std::mem::swap(&mut jobs, &mut self.jobs);
                let ghost before = jobs@;
                let ghost record = job@;
                jobs.push(job);
                proof {
                    assert(jobs@.drop_last() =~= before);
                    assert(jobs@.last()@ == record);
                }
                self.jobs = jobs;
            },
        }
        proof {
            use_type_invariant(&*self);
            lemma_records_well_formed(self.jobs@);
        }
    }

    /// The job filed under `id`, if any.
    pub fn get(&self, id: &str) -> (res: Option<&JobStatus>)
        ensures
            match res {
                Some(j) => self@.contains_key(id@) && j@ == self@[id@],
                None => !self@.contains_key(id@),
            },
    {
        proof {
            use_type_invariant(self);
        }
        match self.find(id) {
            Some(i) => {
                proof {
                    lemma_records_lookup(self.jobs@, i as int);
                }
                Some(&self.jobs[i])
            },
            None => {
                proof {
                    lemma_records_keys(self.jobs@, id@);
                }
                None
            },
        }
    }
}

impl JobStore {
    /// Marks the job `id` as being processed, at 5%; does nothing where
    /// there is no such job.
    pub fn start_processing(&mut self, id: &str)
        ensures
            final(self)@ == after_transition(old(self)@, id@, old(self)@[id@].started()),
            records_well_formed(final(self)@),
    {
        proof {
            use_type_invariant(&*self);
        }
        match self.find(id) {
            Some(i) => {
                proof {
                    lemma_records_lookup(self.jobs@, i as int);
                }
                let job = self.jobs[i].start();
                self.replace_at(i, job);
            },
            None => {
                proof {
                    lemma_records_keys(self.jobs@, id@);
                }
            },
        }
        proof {
            use_type_invariant(&*self);
            lemma_records_well_formed(self.jobs@);
        }
    }

    /// Marks the job `id` as completed, at 100%, with its output at
    /// `output_file`; does nothing where there is no such job.
    pub fn complete(&mut self, id: &str, output_file: String)
        ensures
            final(self)@ == after_transition(old(self)@, id@, old(self)@[id@].completed(output_file@)),
            records_well_formed(final(self)@),
    {
        proof {
            use_type_invariant(&*self);
        }
        match self.find(id) {
            Some(i) => {
                proof {
                    lemma_records_lookup(self.jobs@, i as int);
                }
                let job = self.jobs[i].complete(output_file);
                self.replace_at(i, job);
            },
            None => {
                proof {
                    lemma_records_keys(self.jobs@, id@);
                }
            },
        }
        proof {
            use_type_invariant(&*self);
            lemma_records_well_formed(self.jobs@);
        }
    }

    /// Marks the job `id` as failed with `error`; its progress stays as it
    /// was. Does nothing where there is no such job.
    pub fn fail(&mut self, id: &str, error: String)
        ensures
            final(self)@ == after_transition(old(self)@, id@, old(self)@[id@].failed(error@)),
            records_well_formed(final(self)@),
    {
        proof {
            use_type_invariant(&*self);
        }
        match self.find(id) {
            Some(i) => {
                proof {
                    lemma_records_lookup(self.jobs@, i as int);
                }
                let job = self.jobs[i].fail(error);
                self.replace_at(i, job);
            },
            None => {
                proof {
                    lemma_records_keys(self.jobs@, id@);
                }
            },
        }
        proof {
            use_type_invariant(&*self);
            lemma_records_well_formed(self.jobs@);
        }
    }

    /// What the status query answers for `id`: `None` (not found) for an
    /// unknown job, else its state, progress, error, whether it is
    /// completed, its speed and the name it was uploaded under.
    pub fn status_report(&self, id: &str) -> (res: Option<StatusReport>)
        ensures
            match res {
                Some(r) => self@.contains_key(id@) && report_of(r, self@[id@]),
                None => !self@.contains_key(id@),
            },
    {
        match self.get(id) {
            Some(job) => {
                let status = job.status();
                Some(StatusReport {
                    status,
                    progress: job.progress(),
                    error: job.error(),
                    completed: status == JobState::Completed,
                    speed_bits: job.speed_bits(),
                    original_filename: job.original_filename(),
                })
            },
            None => None,
        }
    }

    /// The finished video of the job `id`, with the name it was uploaded
    /// under and its speed; `None` unless the job exists and is completed.
    pub fn download_target(&self, id: &str) -> (res: Option<DownloadTarget>)
        ensures
            res is Some <==> self@.contains_key(id@) && self@[id@].status == JobState::Completed,
            match res {
                Some(t) => {
                    &&& download_path(self@, id@) == Some(t.output_file@)
                    &&& opt_view(t.original_filename) == self@[id@].original_filename
                    &&& t.speed_bits == self@[id@].speed_bits
                },
                None => download_path(self@, id@) is None,
            },
    {
        self.check_well_formed();
        match self.get(id) {
            Some(job) => {
                if job.status() == JobState::Completed {
                    match job.output_file() {
                        Some(path) => Some(DownloadTarget {
                            output_file: path,
                            original_filename: job.original_filename(),
                            speed_bits: job.speed_bits(),
                        }),
                        None => None,
                    }
                } else {
                    None
                }
            },
            None => None,
        }
    }
}

impl JobStore {
    /// Records how the processing of job `id` ended: completed with its
    /// output at `output_file` when `outcome` is `Ok`, failed with the
    /// error message otherwise. Does nothing where there is no such job.
    pub fn finish_processing(&mut self, id: &str, output_file: String, outcome: Result<(), String>)
        ensures
            final(self)@ == match outcome {
                Ok(()) => after_transition(old(self)@, id@, old(self)@[id@].completed(output_file@)),
                Err(e) => after_transition(old(self)@, id@, old(self)@[id@].failed(e@)),
            },
            records_well_formed(final(self)@),
    {
        match outcome {
            Ok(()) => self.complete(id, output_file),
            Err(e) => self.fail(id, e),
        }
    }
}

/// How far along a state is: queued, then processing, then one of the two
/// end states.
pub open spec fn state_rank(s: JobState) -> int {
    match s {
        JobState::Queued => 0,
        JobState::Processing => 1,
        JobState::Completed => 2,
        JobState::Failed => 2,
    }
}

/// The same job, one state further along.
pub open spec fn moves_forward(a: JobRecord, b: JobRecord) -> bool {
    &&& state_rank(b.status) == state_rank(a.status) + 1
    &&& b.id == a.id
    &&& b.input_file == a.input_file
    &&& b.original_filename == a.original_filename
    &&& b.created_at == a.created_at
    &&& b.speed_bits == a.speed_bits
}

/// The life of an uploaded job as the upload handler drives it: filed as
/// queued at 0%, then processing at 5%, then either completed at 100% with
/// its output or failed with its error at 5%; each step moves the job one
/// state forward and keeps what the upload gave.
pub proof fn lemma_upload_lifecycle(
    m: Map<Seq<char>, JobRecord>,
    job: JobRecord,
    output_file: Seq<char>,
    error: Seq<char>,
)
    requires
        job.status == JobState::Queued,
        job.well_formed(),
    ensures ({
        let id = job.id;
        let queued = m.insert(id, job);
        let started = after_transition(queued, id, queued[id].started());
        let done = after_transition(started, id, started[id].completed(output_file));
        let failed = after_transition(started, id, started[id].failed(error));
        &&& queued[id].status == JobState::Queued && queued[id].progress == 0
        &&& started[id].status == JobState::Processing && started[id].progress == 5
        &&& done[id].status == JobState::Completed && done[id].progress == 100
        &&& done[id].output_file == Some(output_file)
        &&& failed[id].status == JobState::Failed && failed[id].progress == 5
        &&& failed[id].error == Some(error)
        &&& moves_forward(queued[id], started[id])
        &&& moves_forward(started[id], done[id])
        &&& moves_forward(started[id], failed[id])
    }),
{
}

/// The status answer for a known job repeats its record: its state,
/// progress, error, speed and uploaded name, and says it is completed
/// exactly when its state is `Completed`.
pub proof fn lemma_report_repeats_record(r: StatusReport, rec: JobRecord)
    requires
        report_of(r, rec),
    ensures
        r.completed <==> rec.status == JobState::Completed,
        r.status == rec.status,
        r.progress == rec.progress,
        r.speed_bits == rec.speed_bits,
        match r.error { Some(e) => rec.error == Some(e@), None => rec.error is None },
        match r.original_filename { Some(n) => rec.original_filename == Some(n@), None => rec.original_filename is None },
{
}

/// Reading a job back after filing it gives what was filed, and the other
/// jobs stay as they were.
pub proof fn lemma_lookup_after_insert(m: Map<Seq<char>, JobRecord>, job: JobRecord, other: Seq<char>)
    requires
        other != job.id,
    ensures
        m.insert(job.id, job).contains_key(job.id),
        m.insert(job.id, job)[job.id] == job,
        m.insert(job.id, job).contains_key(other) == m.contains_key(other),
        m.contains_key(other) ==> m.insert(job.id, job)[other] == m[other],
{
}

/// A completed job can be downloaded from the path it completed with.
pub proof fn lemma_completed_job_downloadable(m: Map<Seq<char>, JobRecord>, id: Seq<char>, output_file: Seq<char>)
    requires
        m.contains_key(id),
    ensures
        download_path(after_transition(m, id, m[id].completed(output_file)), id) == Some(output_file),
{
}

/// A job that is being processed, or has failed, offers nothing for
/// download, and a fresh job offers nothing either.
pub proof fn lemma_unfinished_job_not_downloadable(m: Map<Seq<char>, JobRecord>, id: Seq<char>, error: Seq<char>, fresh: JobRecord)
    requires
        m.contains_key(id),
        fresh.status == JobState::Queued,
    ensures
        download_path(after_transition(m, id, m[id].started()), id) is None,
        download_path(after_transition(m, id, m[id].failed(error)), id) is None,
        download_path(m.insert(fresh.id, fresh), fresh.id) is None,
{
}

/// A state change of one job leaves every other job as it was, and a state
/// change of an unknown job changes nothing.
pub proof fn lemma_transition_is_local(m: Map<Seq<char>, JobRecord>, id: Seq<char>, next: JobRecord, other: Seq<char>)
    requires
        other != id,
    ensures
        after_transition(m, id, next).contains_key(other) == m.contains_key(other),
        m.contains_key(other) ==> after_transition(m, id, next)[other] == m[other],
        !m.contains_key(id) ==> after_transition(m, id, next) == m,
{
}

/// The state changes keep every job well formed: a well-formed job stays
/// well formed when it starts, completes or fails.
pub proof fn lemma_transitions_keep_well_formed(r: JobRecord, output_file: Seq<char>, error: Seq<char>)
    ensures
        r.started().well_formed(),
        r.completed(output_file).well_formed(),
        r.failed(error).well_formed(),
{
}

} // verus!
