//! The orchestrator: the description of a job, the running set, and the
//! decisions of admission, scheduling and reaping.

use crate::config::Config;
use crate::hasher::Metadata;
use crate::ident::fresh_uuid;
use crate::sandbox::Sandbox;
use crate::status::admission_status;
use crate::status::admitted_status;
use crate::status::ended_status;
use crate::status::status_of_text;
use crate::status::status_text;
use crate::status::terminal_status;
use crate::status::AnalysisStatus;
use crate::status::JobOutcome;
use crate::store::AnalysisRow;
use crate::store::AnalysisView;
use crate::text::clone_opt;
use crate::text::join_path;
use crate::text::joined;
use crate::text::opt_text;
use crate::text::str_eq;
use crate::time::AnalysisDate;
use vstd::prelude::*;
use vstd::string::*;

verus! {

/// What went wrong in the orchestrator.
#[derive(Debug, PartialEq, Eq)]
pub enum AnalyzerError {
    /// A file or a subprocess failed; the reason.
    Io(String),
    /// Any other failure; its message.
    Msg(String),
    /// The store failed; the reason.
    Db(String),
}

impl AnalyzerError {
    /// The error that carries a message.
    pub fn msg(s: &str) -> (e: AnalyzerError)
        ensures
            e matches AnalyzerError::Msg(m) && m@ == s@,
    {
        AnalyzerError::Msg(String::from_str(s))
    }

    /// The text of the error: the message itself, or the reason behind
    /// `io: ` or `db: `.
    pub open spec fn text(&self) -> Seq<char> {
        match self {
            AnalyzerError::Io(m) => "io: "@ + m@,
            AnalyzerError::Msg(m) => m@,
            AnalyzerError::Db(m) => "db: "@ + m@,
        }
    }

    pub fn to_string(&self) -> (r: String)
        ensures
            r@ == self.text(),
    {
        match self {
            AnalyzerError::Io(m) => String::from_str("io: ").concat(m.as_str()),
            AnalyzerError::Msg(m) => m.clone(),
            AnalyzerError::Db(m) => String::from_str("db: ").concat(m.as_str()),
        }
    }
}

/// The description of one job: which sample runs in which sandbox, and
/// where its files lie.
#[derive(Debug, PartialEq, Eq)]
pub struct Analysis {
    pub sandbox: String,
    pub sample_uuid: u128,
    pub sample_path: String,
    pub submission_name: Option<String>,
    pub analysis_uuid: u128,
    pub analysis_dir: String,
    pub metadata: Option<Metadata>,
    pub client_ip: String,
}

impl Clone for Analysis {
    fn clone(&self) -> (r: Analysis)
        ensures
            r == *self,
    {
        Analysis {
            sandbox: self.sandbox.clone(),
            sample_uuid: self.sample_uuid,
            sample_path: self.sample_path.clone(),
            submission_name: clone_opt(&self.submission_name),
            analysis_uuid: self.analysis_uuid,
            analysis_dir: self.analysis_dir.clone(),
            metadata: match &self.metadata {
                Some(m) => Some(m.clone()),
                None => None,
            },
            client_ip: self.client_ip.clone(),
        }
    }
}

impl Analysis {
    /// The name of the file that holds the metadata of an analysis.
    pub const METADATA_FILENAME: &'static str = "metadata.json";

    /// The name of the file that holds the descriptor of the sandbox of an
    /// analysis.
    pub const SANDBOX_FILENAME: &'static str = "sandbox.json";

    /// The job has these identifiers and texts, no metadata yet, and its
    /// paths follow the layout of the data directory of `c`.
    pub open spec fn describes(
        &self,
        c: &Config,
        analysis_uuid: u128,
        sandbox: Seq<char>,
        sample_uuid: u128,
        submission_name: Option<Seq<char>>,
        client_ip: Seq<char>,
    ) -> bool {
        &&& self.analysis_uuid == analysis_uuid
        &&& self.sandbox@ == sandbox
        &&& self.sample_uuid == sample_uuid
        &&& opt_text(self.submission_name) == submission_name
        &&& self.client_ip@ == client_ip
        &&& self.sample_path@ == c.sample_path_text(sample_uuid)
        &&& self.analysis_dir@ == c.analysis_dir_text(analysis_uuid)
        &&& self.metadata is None
    }

    /// The job of an analysis under a given identifier, in the sandbox of
    /// the given name, which is taken as it is.
    pub fn in_sandbox(
        c: &Config,
        analysis_uuid: u128,
        sandbox: String,
        sample_uuid: u128,
        submission_name: Option<String>,
        client_ip: String,
    ) -> (a: Analysis)
        ensures
            a.describes(
                c,
                analysis_uuid,
                sandbox@,
                sample_uuid,
                opt_text(submission_name),
                client_ip@,
            ),
    {
        Analysis {
            sandbox,
            sample_uuid,
            sample_path: c.sample_path(sample_uuid),
            submission_name,
            analysis_uuid,
            analysis_dir: c.analysis_dir(analysis_uuid),
            metadata: None,
            client_ip,
        }
    }

    /// The job of a new analysis under a given identifier. An unknown or
    /// absent sandbox name gives the default sandbox.
    pub fn with_uuid(
        c: &Config,
        analysis_uuid: u128,
        sandbox_name: Option<String>,
        sample_uuid: u128,
        submission_name: Option<String>,
        client_ip: String,
    ) -> (a: Analysis)
        ensures
            a.describes(
                c,
                analysis_uuid,
                c.resolved(opt_text(sandbox_name)),
                sample_uuid,
                opt_text(submission_name),
                client_ip@,
            ),
    {
        let sandbox = match &sandbox_name {
            Some(n) => c.resolve_sandbox_name(Some(n.as_str())),
            None => c.resolve_sandbox_name(None),
        };
        Analysis::in_sandbox(c, analysis_uuid, sandbox, sample_uuid, submission_name, client_ip)
    }

    /// The job of a new analysis, under a fresh random identifier.
    pub fn new(
        c: &Config,
        sandbox_name: Option<String>,
        sample_uuid: u128,
        submission_name: Option<String>,
        client_ip: String,
    ) -> (a: Analysis)
        ensures
            a.describes(
                c,
                a.analysis_uuid,
                c.resolved(opt_text(sandbox_name)),
                sample_uuid,
                opt_text(submission_name),
                client_ip@,
            ),
    {
        Analysis::with_uuid(c, fresh_uuid(), sandbox_name, sample_uuid, submission_name, client_ip)
    }

    /// The job of a stored analysis: the row's identifiers and texts as
    /// they are.
    pub fn from_model_with_config(value: AnalysisRow, c: &Config) -> (a: Analysis)
        ensures
            a.describes(
                c,
                value.uuid,
                value.sandbox_name@,
                value.sample_uuid,
                opt_text(value.submission_name),
                value.src_ip@,
            ),
    {
        Analysis {
            sandbox: value.sandbox_name,
            sample_uuid: value.sample_uuid,
            sample_path: c.sample_path(value.sample_uuid),
            submission_name: value.submission_name,
            analysis_uuid: value.uuid,
            analysis_dir: c.analysis_dir(value.uuid),
            metadata: None,
            client_ip: value.src_ip,
        }
    }

    pub fn sample_path(&self) -> (p: &String)
        ensures
            p == self.sample_path,
    {
        &self.sample_path
    }

    /// `{analysis_dir}/metadata.json`
    pub fn metadata_json_file(&self) -> (p: String)
        ensures
            p@ == joined(self.analysis_dir@, Analysis::METADATA_FILENAME@),
    {
        join_path(self.analysis_dir.as_str(), Analysis::METADATA_FILENAME)
    }

    /// `{analysis_dir}/sandbox.json`
    pub fn sandbox_json_file(&self) -> (p: String)
        ensures
            p@ == joined(self.analysis_dir@, Analysis::SANDBOX_FILENAME@),
    {
        join_path(self.analysis_dir.as_str(), Analysis::SANDBOX_FILENAME)
    }

    /// The metadata of the job's sample, given what was hashed from the
    /// sample file. The first metadata that a job gets is kept: a later
    /// call hands back the kept one.
    pub fn async_metadata(&mut self, hashed: Metadata) -> (m: &Metadata)
        ensures
            final(self).metadata == Some(*m),
            old(self).metadata matches Some(kept) ==> *m == kept,
            old(self).metadata is None ==> {
                &&& m.submission_name == old(self).submission_name
                &&& m.magic is None
                &&& m.analysis_date == hashed.analysis_date
                &&& m.md5 == hashed.md5
                &&& m.sha1 == hashed.sha1
                &&& m.sha256 == hashed.sha256
                &&& m.sha512 == hashed.sha512
                &&& m.size == hashed.size
            },
            final(self).sandbox == old(self).sandbox,
            final(self).sample_uuid == old(self).sample_uuid,
            final(self).sample_path == old(self).sample_path,
            final(self).submission_name == old(self).submission_name,
            final(self).analysis_uuid == old(self).analysis_uuid,
            final(self).analysis_dir == old(self).analysis_dir,
            final(self).client_ip == old(self).client_ip,
    {
        if self.metadata.is_none() {
            let fresh = Metadata::from_analysis(self, hashed);
            self.metadata = Some(fresh);
        }
        self.metadata.as_ref().unwrap()
    }
}

impl Metadata {
    /// The metadata of the sample of a job: the digests and the size as
    /// they were hashed, under the job's submission name.
    pub fn from_analysis(s: &Analysis, hashed: Metadata) -> (m: Metadata)
        ensures
            m.submission_name == s.submission_name,
            m.magic is None,
            m.analysis_date == hashed.analysis_date,
            m.md5 == hashed.md5,
            m.sha1 == hashed.sha1,
            m.sha256 == hashed.sha256,
            m.sha512 == hashed.sha512,
            m.size == hashed.size,
    {
        let mut m = hashed;
        m.submission_name = clone_opt(&s.submission_name);
        m.magic = None;
        m
    }
}

/// The row that stands for a job in the store under a status and a date.
pub open spec fn job_row(s: Analysis, status: AnalysisStatus, date: AnalysisDate) -> AnalysisView {
    AnalysisView {
        uuid: s.analysis_uuid,
        sample_uuid: s.sample_uuid,
        sandbox_name: s.sandbox@,
        submission_name: opt_text(s.submission_name),
        date,
        src_ip: s.client_ip@,
        status: status_text(status),
    }
}

/// Builds the row of a job.
pub fn make_row(s: &Analysis, status: AnalysisStatus, date: AnalysisDate) -> (row: AnalysisRow)
    ensures
        row@ == job_row(*s, status, date),
{
    AnalysisRow {
        uuid: s.analysis_uuid,
        sample_uuid: s.sample_uuid,
        sandbox_name: s.sandbox.clone(),
        submission_name: clone_opt(&s.submission_name),
        date,
        src_ip: s.client_ip.clone(),
        status: status.to_string(),
    }
}

/// The arguments with which the executor is started for one job.
pub open spec fn executor_args(
    config_path: Seq<char>,
    output_dir: Seq<char>,
    sample_path: Seq<char>,
) -> Seq<Seq<char>> {
    seq![
        "--force"@,
        "-t"@,
        "60"@,
        "--config"@,
        config_path,
        "--output-dir"@,
        output_dir,
        "--no-dropped"@,
        "--tmp"@,
        "--graph"@,
        "--misp"@,
        "--sync-time"@,
        "--compress"@,
        "--"@,
        sample_path,
    ]
}

/// Builds the argument list of the executor. `--force` makes it
/// overwrite what an earlier attempt may have left.
pub fn build_executor_args(config_path: &str, output_dir: &str, sample_path: &str) -> (args: Vec<
    String,
>)
    ensures
        args@.len() == 15,
        forall|i: int|
            0 <= i < 15 ==> (#[trigger] args@[i])@ == executor_args(
                config_path@,
                output_dir@,
                sample_path@,
            )[i],
{
    let mut args: Vec<String> = Vec::new();
    args.push(String::from_str("--force"));
    args.push(String::from_str("-t"));
    args.push(String::from_str("60"));
    args.push(String::from_str("--config"));
    args.push(String::from_str(config_path));
    args.push(String::from_str("--output-dir"));
    args.push(String::from_str(output_dir));
    args.push(String::from_str("--no-dropped"));
    args.push(String::from_str("--tmp"));
    args.push(String::from_str("--graph"));
    args.push(String::from_str("--misp"));
    args.push(String::from_str("--sync-time"));
    args.push(String::from_str("--compress"));
    args.push(String::from_str("--"));
    args.push(String::from_str(sample_path));
    args
}

/// What the supervising task of a job reports: nothing on success, and on
/// failure a message that names the file that holds the executor's
/// standard error.
pub fn job_result(exit_success: bool, stderr_path: &str) -> (r: Result<(), AnalyzerError>)
    ensures
        exit_success ==> r is Ok,
        !exit_success ==> (r matches Err(AnalyzerError::Msg(m)) && m@
            == "analysis failed, inspect "@ + stderr_path@),
{
    if exit_success {
        Ok(())
    } else {
        Err(AnalyzerError::Msg(String::from_str("analysis failed, inspect ").concat(stderr_path)))
    }
}

/// All that is needed to start one job: the job, its sandbox, and the
/// files and arguments of the executor.
#[derive(Debug, PartialEq, Eq)]
pub struct LaunchPlan {
    pub analysis: Analysis,
    /// The descriptor of the sandbox, written to `sandbox.json`.
    pub sandbox: Sandbox,
    /// The executor binary.
    pub executor: String,
    /// The argument list of the executor.
    pub args: Vec<String>,
    /// The directory that the executor fills.
    pub output_dir: String,
    /// Where the executor's standard output goes.
    pub stdout_path: String,
    /// Where the executor's standard error goes.
    pub stderr_path: String,
}

/// A job that is attached to a live executor: its description and the
/// handle on the task that supervises it.
pub struct RunningAnalysis<H> {
    pub analysis: Analysis,
    pub handle: Option<H>,
}

/// The orchestrator: the configuration, the running set and the handle on
/// the store. `D` is the handle on the store, `H` that on a supervising
/// task; neither is looked into.
pub struct Analyzer<D, H> {
    config: Config,
    running: Vec<RunningAnalysis<H>>,
    db: D,
}

impl<D, H> Analyzer<D, H> {
    /// The configuration.
    pub closed spec fn settings(&self) -> Config {
        self.config
    }

    /// The handle on the store.
    pub closed spec fn store(&self) -> D {
        self.db
    }

    /// The jobs of the running set, in the order of their admission.
    pub closed spec fn jobs(&self) -> Seq<Analysis> {
        self.running@.map_values(|r: RunningAnalysis<H>| r.analysis)
    }

    /// The identifiers of the running set.
    pub open spec fn running_ids(&self) -> Seq<u128> {
        self.jobs().map_values(|a: Analysis| a.analysis_uuid)
    }

    /// Whether the analysis is in the running set.
    pub open spec fn runs(&self, uuid: u128) -> bool {
        self.running_ids().contains(uuid)
    }

    /// No analysis is twice in the running set, and the set holds no more
    /// than `max_running` jobs.
    pub open spec fn wf(&self) -> bool {
        &&& self.running_ids().no_duplicates()
        &&& self.running_ids().len() <= self.settings().max_running
    }

    /// Whether the running set is in order.
    pub fn is_consistent(&self) -> (r: bool)
        ensures
            r == self.wf(),
    {
        let n = self.running.len();
        if n > self.config.max_running {
            return false;
        }
        let mut j: usize = 0;
        while j < n
            invariant
                j <= n,
                n == self.running@.len(),
                forall|a: int, b: int|
                    0 <= a < b < j ==> self.running_ids()[a] != self.running_ids()[b],
            decreases n - j,
        {
            let mut i: usize = 0;
            while i < j
                invariant
                    i <= j < n,
                    n == self.running@.len(),
                    forall|a: int| 0 <= a < i ==> self.running_ids()[a] != self.running_ids()[j as int],
                decreases j - i,
            {
                if self.running[i].analysis.analysis_uuid == self.running[j].analysis.analysis_uuid {
                    assert(self.running_ids()[i as int] == self.running_ids()[j as int]);
                    return false;
                }
                i += 1;
            }
            j += 1;
        }
        true
    }

    /// An orchestrator with an empty running set.
    pub fn from_config_and_db(value: Config, db: D) -> (a: Analyzer<D, H>)
        ensures
            a.wf(),
            a.settings() == value,
            a.store() == db,
            a.jobs().len() == 0,
            a.handles().len() == 0,
    {
        Analyzer { config: value, running: Vec::new(), db }
    }

    /// The configuration.
    pub fn config(&self) -> (c: &Config)
        ensures
            *c == self.settings(),
    {
        &self.config
    }

    /// The handle on the store.
    pub fn db(&self) -> (d: &D)
        ensures
            *d == self.store(),
    {
        &self.db
    }

    /// The number of jobs in the running set.
    pub fn running_len(&self) -> (n: usize)
        ensures
            n == self.jobs().len(),
    {
        self.running.len()
    }

    /// The place of an analysis in the running set.
    fn position(&self, uuid: u128) -> (r: Option<usize>)
        ensures
            r is Some <==> self.runs(uuid),
            r matches Some(i) ==> i < self.jobs().len() && self.jobs()[i as int].analysis_uuid
                == uuid,
    {
        let mut i: usize = 0;
        while i < self.running.len()
            invariant
                i <= self.running@.len(),
                forall|j: int| 0 <= j < i ==> self.running_ids()[j] != uuid,
            decreases self.running@.len() - i,
        {
            if self.running[i].analysis.analysis_uuid == uuid {
                assert(self.running_ids()[i as int] == uuid);
                return Some(i);
            }
            i += 1;
        }
        None
    }

    /// Whether the analysis is attached to a live executor in this
    /// process.
    pub fn is_running(&self, uuid: &u128) -> (r: bool)
        ensures
            r == self.runs(*uuid),
    {
        self.position(*uuid).is_some()
    }

    /// Whether the queue is full, given the number of queued rows in the
    /// store.
    pub fn is_queue_full(&self, queued_count: u64) -> (full: bool)
        ensures
            full == (queued_count >= self.settings().max_queue),
    {
        crate::status::is_queue_full(queued_count, self.config.max_queue)
    }

    /// The row to insert for a new analysis, and whether it is queued:
    /// its status follows the admission rule.
    pub fn queue_new(&self, s: &Analysis, queued_count: u64, now: AnalysisDate) -> (r: (
        AnalysisRow,
        bool,
    ))
        ensures
            r.0@ == job_row(
                *s,
                admitted_status(queued_count as int, self.settings().max_queue as int),
                now,
            ),
            r.1 == (queued_count < self.settings().max_queue),
    {
        let status = admission_status(queued_count, self.config.max_queue);
        let queued = match status {
            AnalysisStatus::queued => true,
            _ => false,
        };
        (make_row(s, status, now), queued)
    }

    /// The row with which to update an analysis that is queued again in
    /// place, and whether it is queued: its status follows the admission
    /// rule, its date is fresh.
    pub fn queue_existing(&self, s: &Analysis, queued_count: u64, now: AnalysisDate) -> (r: (
        AnalysisRow,
        bool,
    ))
        ensures
            r.0@ == job_row(
                *s,
                admitted_status(queued_count as int, self.settings().max_queue as int),
                now,
            ),
            r.1 == (queued_count < self.settings().max_queue),
    {
        self.queue_new(s, queued_count, now)
    }

    /// The status of an analysis: `running` where it is in the running
    /// set, whatever the store holds; else the stored status; else
    /// nothing. A stored text that is no status is an error.
    pub fn analysis_status(&self, uuid: &u128, stored: Option<&str>) -> (r: Result<
        Option<AnalysisStatus>,
        AnalyzerError,
    >)
        ensures
            self.runs(*uuid) ==> r matches Ok(Some(AnalysisStatus::running)),
            !self.runs(*uuid) && stored is None ==> r matches Ok(None),
            !self.runs(*uuid) && stored is Some ==> match status_of_text(stored->0@) {
                Some(s) => r matches Ok(Some(t)) && t == s,
                None => r matches Err(AnalyzerError::Msg(m)) && m@
                    == "failed to convert status str from db"@,
            },
    {
        if self.is_running(uuid) {
            return Ok(Some(AnalysisStatus::running));
        }
        let text = match stored {
            Some(t) => t,
            None => { return Ok(None); },
        };
        match AnalysisStatus::from_str(text) {
            Some(s) => Ok(Some(s)),
            None => Err(AnalyzerError::msg("failed to convert status str from db")),
        }
    }

    /// Whether the running set has room for one more job.
    pub fn has_capacity(&self) -> (r: bool)
        ensures
            r == (self.jobs().len() < self.settings().max_running),
    {
        self.running.len() < self.config.max_running
    }

    /// A row that may be admitted: it is stored as `queued` and its
    /// analysis is not in the running set.
    pub open spec fn is_candidate(&self, row: AnalysisRow) -> bool {
        row.status@ == "queued"@ && !self.runs(row.uuid)
    }

    /// Whether one of the rows may be admitted.
    pub open spec fn has_candidate(&self, rows: Seq<AnalysisRow>) -> bool {
        exists|i: int| 0 <= i < rows.len() && self.is_candidate(#[trigger] rows[i])
    }

    /// The row at `i` is the one to admit next: the newest of the rows
    /// that may be admitted, and the first of them among equally new
    /// ones.
    pub open spec fn picks(&self, rows: Seq<AnalysisRow>, i: int) -> bool {
        &&& 0 <= i < rows.len()
        &&& self.is_candidate(rows[i])
        &&& forall|j: int|
            0 <= j < rows.len() && self.is_candidate(#[trigger] rows[j]) ==> !rows[j].date.is_after(
                rows[i].date,
            )
        &&& forall|j: int|
            0 <= j < i && self.is_candidate(#[trigger] rows[j]) ==> rows[i].date.is_after(
                rows[j].date,
            )
    }

    /// The place of the row to admit next.
    pub fn next_queued(&self, rows: &Vec<AnalysisRow>) -> (r: Option<usize>)
        ensures
            r is Some <==> self.has_candidate(rows@),
            r matches Some(i) ==> self.picks(rows@, i as int),
    {
        let mut best: Option<usize> = None;
        let mut k: usize = 0;
        while k < rows.len()
            invariant
                k <= rows@.len(),
                best is None ==> forall|j: int|
                    0 <= j < k ==> !self.is_candidate(#[trigger] rows@[j]),
                best matches Some(b) ==> {
                    &&& b < k
                    &&& self.is_candidate(rows@[b as int])
                    &&& forall|j: int|
                        0 <= j < k && self.is_candidate(#[trigger] rows@[j])
                            ==> !rows@[j].date.is_after(rows@[b as int].date)
                    &&& forall|j: int|
                        0 <= j < b && self.is_candidate(#[trigger] rows@[j]) ==> rows@[b as int].date.is_after(
                        rows@[j].date)
                },
            decreases rows@.len() - k,
        {
            let row = &rows[k];
            if str_eq(row.status.as_str(), "queued") && !self.is_running(&row.uuid) {
                match best {
                    None => {
                        best = Some(k);
                    },
                    Some(b) => {
                        if row.date.after(&rows[b].date) {
                            best = Some(k);
                        }
                    },
                }
            }
            k += 1;
        }
        best
    }

    /// The job of the newest queued analysis that is not in the running
    /// set, if there is one.
    pub fn last_queued_not_running(&self, rows: &Vec<AnalysisRow>) -> (r: Option<Analysis>)
        ensures
            r is Some <==> self.has_candidate(rows@),
            r matches Some(a) ==> exists|i: int|
                self.picks(rows@, i) && #[trigger] a.describes(
                    &self.settings(),
                    rows@[i].uuid,
                    rows@[i].sandbox_name@,
                    rows@[i].sample_uuid,
                    opt_text(rows@[i].submission_name),
                    rows@[i].src_ip@,
                ),
    {
        match self.next_queued(rows) {
            Some(i) => {
                let a = Analysis::from_model_with_config(rows[i].clone(), &self.config);
                assert(self.picks(rows@, i as int) && a.describes(
                    &self.settings(),
                    rows@[i as int].uuid,
                    rows@[i as int].sandbox_name@,
                    rows@[i as int].sample_uuid,
                    opt_text(rows@[i as int].submission_name),
                    rows@[i as int].src_ip@,
                ));
                Some(a)
            },
            None => None,
        }
    }

    /// The plan follows the layout and the configuration for the job and
    /// the sandbox name that its own name resolves to.
    pub open spec fn plans(&self, p: LaunchPlan, analysis: Analysis) -> bool {
        let c = self.settings();
        let name = c.resolved(Some(analysis.sandbox@));
        &&& p.analysis == analysis
        &&& p.executor == c.kunai_sandbox_exe
        &&& p.sandbox.name@ == name
        &&& exists|i: int|
            0 <= i < c.sandboxes@.len() && #[trigger] c.sandboxes@[i] == p.sandbox && forall|j: int|
                0 <= j < i ==> c.sandboxes@[j].name@ != name
        &&& p.output_dir@ == joined(analysis.analysis_dir@, "analysis"@)
        &&& p.stdout_path@ == joined(analysis.analysis_dir@, "sandbox.stdout"@)
        &&& p.stderr_path@ == joined(analysis.analysis_dir@, "sandbox.stderr"@)
        &&& p.args@.len() == 15
        &&& exists|i: int|
            0 <= i < c.sandboxes_config@.len() && (#[trigger] c.sandboxes_config@[i]).name@ == name
                && (forall|j: int| 0 <= j < i ==> c.sandboxes_config@[j].name@ != name)
                && forall|k: int|
                0 <= k < 15 ==> (#[trigger] p.args@[k])@ == executor_args(
                    c.sandboxes_config@[i].path@,
                    p.output_dir@,
                    analysis.sample_path@,
                )[k]
    }

    /// The plan to start a job. The sandbox is resolved once more: a name
    /// that is no longer configured gives the default. With a usable
    /// configuration there is always a plan.
    pub fn launch_plan(&self, analysis: Analysis) -> (r: Result<LaunchPlan, AnalyzerError>)
        ensures
            self.settings().wf() ==> r is Ok,
            r matches Ok(p) ==> self.plans(p, analysis),
            r is Err <==> !self.settings().has_sandbox(
                self.settings().resolved(Some(analysis.sandbox@)),
            ) || !self.settings().in_catalog(self.settings().resolved(Some(analysis.sandbox@))),
            r matches Err(e) ==> (e matches AnalyzerError::Msg(m) && m@ == (if !self.settings().has_sandbox(
                self.settings().resolved(Some(analysis.sandbox@)),
            ) {
                "sandbox name must be found in config"@
            } else {
                "sandbox name must be found in list"@
            })),
    {
        let name = self.config.resolve_sandbox_name(Some(analysis.sandbox.as_str()));
        let at = match self.config.find_entry(name.as_str()) {
            Some(at) => at,
            None => {
                return Err(AnalyzerError::msg("sandbox name must be found in config"));
            },
        };
        let found = match self.config.find_sandbox(name.as_str()) {
            Some(found) => found,
            None => {
                return Err(AnalyzerError::msg("sandbox name must be found in list"));
            },
        };
        let sandbox = self.config.sandboxes[found].clone();
        let output_dir = join_path(analysis.analysis_dir.as_str(), "analysis");
        let stdout_path = join_path(analysis.analysis_dir.as_str(), "sandbox.stdout");
        let stderr_path = join_path(analysis.analysis_dir.as_str(), "sandbox.stderr");
        let args = build_executor_args(
            self.config.sandboxes_config[at].path.as_str(),
            output_dir.as_str(),
            analysis.sample_path.as_str(),
        );
        let p = LaunchPlan {
            analysis,
            sandbox,
            executor: self.config.kunai_sandbox_exe.clone(),
            args,
            output_dir,
            stdout_path,
            stderr_path,
        };
        assert(self.settings().sandboxes@[found as int] == p.sandbox);
        assert(self.settings().sandboxes_config@[at as int].name@ == name@);
        Ok(p)
    }

    /// One admission: where the running set has room, the plan to start
    /// the newest queued analysis that is not in it. At most one job is
    /// admitted by a call.
    pub fn analyze_next(&self, rows: &Vec<AnalysisRow>) -> (r: Result<
        Option<LaunchPlan>,
        AnalyzerError,
    >)
        ensures
            self.jobs().len() >= self.settings().max_running ==> r matches Ok(None),
            !self.has_candidate(rows@) ==> r matches Ok(None),
            self.jobs().len() < self.settings().max_running && self.has_candidate(rows@)
                && self.settings().wf() ==> r matches Ok(Some(_)),
            r matches Err(e) ==> self.jobs().len() < self.settings().max_running
                && self.has_candidate(rows@) && !self.settings().wf() && (e matches AnalyzerError::Msg(
                m,
            ) && (m@ == "sandbox name must be found in config"@ || m@
                == "sandbox name must be found in list"@)),
            r matches Ok(Some(p)) ==> self.jobs().len() < self.settings().max_running
                && self.plans(p, p.analysis) && exists|i: int|
                self.picks(rows@, i) && #[trigger] p.analysis.describes(
                    &self.settings(),
                    rows@[i].uuid,
                    rows@[i].sandbox_name@,
                    rows@[i].sample_uuid,
                    opt_text(rows@[i].submission_name),
                    rows@[i].src_ip@,
                ),
    {
        if !self.has_capacity() {
            return Ok(None);
        }
        match self.last_queued_not_running(rows) {
            Some(analysis) => {
                match self.launch_plan(analysis) {
                    Ok(p) => Ok(Some(p)),
                    Err(e) => Err(e),
                }
            },
            None => Ok(None),
        }
    }

    /// Puts a started job into the running set, with its handle beside
    /// it; the entries that are there stay as they are. Nothing is done,
    /// and the handle comes back, where the analysis is already in the set
    /// or the set is full.
    pub fn register(&mut self, analysis: Analysis, handle: H) -> (r: Option<H>)
        requires
            old(self).wf(),
        ensures
            final(self).wf(),
            final(self).settings() == old(self).settings(),
            final(self).store() == old(self).store(),
            r is None <==> !old(self).runs(analysis.analysis_uuid) && old(self).jobs().len() < old(
                self,
            ).settings().max_running,
            r is None ==> final(self).jobs() == old(self).jobs().push(analysis)
                && final(self).handles() == old(self).handles().push(Some(handle)),
            r matches Some(h) ==> h == handle && final(self).jobs() == old(self).jobs()
                && final(self).handles() == old(self).handles(),
    {
        if self.is_running(&analysis.analysis_uuid) || !self.has_capacity() {
            return Some(handle);
        }
        let ghost before = self.running_ids();
        let ghost uuid = analysis.analysis_uuid;
        self.running.push(RunningAnalysis { analysis, handle: Some(handle) });
        proof {
            assert(self.jobs() =~= old(self).jobs().push(analysis));
            assert(self.handles() =~= old(self).handles().push(Some(handle)));
            assert(self.running_ids() =~= before.push(uuid));
        }
        None
    }

    /// Takes a finished job out of the running set and gives the row with
    /// which to update the store: the job's row under its terminal
    /// status and a fresh date. The other entries stay as they are, each
    /// with its handle. `None`, and nothing done, where the analysis is
    /// not in the set.
    pub fn reap(&mut self, uuid: u128, outcome: JobOutcome, now: AnalysisDate) -> (r: Option<
        AnalysisRow,
    >)
        requires
            old(self).wf(),
        ensures
            final(self).wf(),
            final(self).settings() == old(self).settings(),
            final(self).store() == old(self).store(),
            r is Some <==> old(self).runs(uuid),
            r is None ==> final(self).jobs() == old(self).jobs() && final(self).handles() == old(
                self,
            ).handles(),
            r matches Some(row) ==> exists|i: int|
                0 <= i < old(self).jobs().len() && (#[trigger] old(self).jobs()[i]).analysis_uuid
                    == uuid && final(self).jobs() == old(self).jobs().remove(i)
                    && final(self).handles() == old(self).handles().remove(i) && row@ == job_row(
                    old(self).jobs()[i],
                    ended_status(outcome),
                    now,
                ),
            !final(self).runs(uuid),
    {
        let at = match self.position(uuid) {
            Some(at) => at,
            None => { return None; },
        };
        let ghost before = self.running_ids();
        let entry = self.running.remove(at);
        let row = make_row(&entry.analysis, terminal_status(outcome), now);
        proof {
            assert(self.jobs() =~= old(self).jobs().remove(at as int));
            assert(self.handles() =~= old(self).handles().remove(at as int));
            assert(self.running_ids() =~= before.remove(at as int));
            assert(old(self).jobs()[at as int] == entry.analysis);
            assert(before[at as int] == uuid);
            assert(before.no_duplicates());
            let after = before.remove(at as int);
            assert(!after.contains(uuid)) by {
                if after.contains(uuid) {
                    let j = choose|j: int| 0 <= j < after.len() && after[j] == uuid;
                    if j < at {
                        assert(after[j] == before[j]);
                    } else {
                        assert(after[j] == before[j + 1]);
                    }
                }
            }
            assert(after.no_duplicates()) by {
                assert forall|a: int, b: int|
                    0 <= a < after.len() && 0 <= b < after.len() && a != b implies after[a]
                    != after[b] by {
                    let a2 = if a < at { a } else { a + 1 };
                    let b2 = if b < at { b } else { b + 1 };
                    assert(after[a] == before[a2]);
                    assert(after[b] == before[b2]);
                }
            }
        }
        Some(row)
    }

    /// The handles of the running set, each beside its job in `jobs`;
    /// `None` for a handle that was taken.
    pub closed spec fn handles(&self) -> Seq<Option<H>> {
        self.running@.map_values(|r: RunningAnalysis<H>| r.handle)
    }

    /// Each job of the running set has its handle beside it.
    pub proof fn lemma_handles_beside_jobs(&self)
        ensures
            self.handles().len() == self.jobs().len(),
    {
    }

    /// The identifiers of the running set, in the order of admission.
    pub fn running_uuids(&self) -> (ids: Vec<u128>)
        ensures
            ids@ == self.running_ids(),
    {
        let mut ids: Vec<u128> = Vec::new();
        let mut i: usize = 0;
        while i < self.running.len()
            invariant
                i <= self.running@.len(),
                ids@ == self.running_ids().subrange(0, i as int),
            decreases self.running@.len() - i,
        {
            ids.push(self.running[i].analysis.analysis_uuid);
            assert(self.running_ids().subrange(0, i as int).push(self.running_ids()[i as int])
                =~= self.running_ids().subrange(0, i + 1));
            i += 1;
        }
        assert(self.running_ids().subrange(0, i as int) =~= self.running_ids());
        ids
    }

    /// The handle on the supervising task of a running analysis.
    pub fn handle(&self, uuid: u128) -> (h: Option<&H>)
        ensures
            !self.runs(uuid) ==> h is None,
            self.runs(uuid) ==> exists|i: int|
                0 <= i < self.jobs().len() && (#[trigger] self.jobs()[i]).analysis_uuid == uuid && match h {
                    Some(t) => self.handles()[i] == Some(*t),
                    None => self.handles()[i] is None,
                },
    {
        match self.position(uuid) {
            Some(at) => {
                let h = self.running[at].handle.as_ref();
                assert(self.jobs()[at as int].analysis_uuid == uuid);
                h
            },
            None => None,
        }
    }

    /// Takes the handle of a running analysis, to await it; the job stays
    /// in the running set.
    pub fn take_handle(&mut self, uuid: u128) -> (h: Option<H>)
        requires
            old(self).wf(),
        ensures
            final(self).wf(),
            final(self).settings() == old(self).settings(),
            final(self).store() == old(self).store(),
            final(self).jobs() == old(self).jobs(),
            !old(self).runs(uuid) ==> h is None && final(self).handles() == old(self).handles(),
            old(self).runs(uuid) ==> exists|i: int|
                0 <= i < old(self).jobs().len() && (#[trigger] old(self).jobs()[i]).analysis_uuid
                    == uuid && h == old(self).handles()[i] && final(self).handles() == old(
                    self,
                ).handles().update(i, None),
    {
        let at = match self.position(uuid) {
            Some(at) => at,
            None => { return None; },
        };
        let entry = self.running.remove(at);
        let RunningAnalysis { analysis, handle } = entry;
        self.running.insert(at, RunningAnalysis { analysis, handle: None });
        proof {
            assert(self.jobs() =~= old(self).jobs());
            assert(self.handles() =~= old(self).handles().update(at as int, None));
            assert(old(self).jobs()[at as int].analysis_uuid == uuid);
        }
        handle
    }

    /// Reaps the jobs that are reported as finished, in the order of the
    /// report: each of them that is in the running set leaves it, and its
    /// row comes back under the terminal status of its outcome and a
    /// fresh date. A job that is reported twice is reaped once, by its
    /// first report; a report of a job that is not running is passed
    /// over. Every job that stays is one of before, with its handle.
    pub fn reap_finished(&mut self, finished: &Vec<(u128, JobOutcome)>, now: AnalysisDate) -> (rows:
        Vec<AnalysisRow>)
        requires
            old(self).wf(),
        ensures
            final(self).wf(),
            final(self).settings() == old(self).settings(),
            final(self).store() == old(self).store(),
            forall|id: u128|
                #![trigger final(self).runs(id)]
                #![trigger left_running(old(self).running_ids(), finished@, id)]
                final(self).runs(id) <==> left_running(old(self).running_ids(), finished@, id),
            rows@.len() + final(self).jobs().len() == old(self).jobs().len(),
            final(self).handles().len() == final(self).jobs().len(),
            forall|j: int|
                0 <= j < final(self).jobs().len() ==> kept_entry(
                    old(self).jobs(),
                    old(self).handles(),
                    #[trigger] final(self).jobs()[j],
                    final(self).handles()[j],
                ),
            forall|k: int|
                0 <= k < rows@.len() ==> reaped_row(
                    old(self).jobs(),
                    finished@,
                    finished@.len() as int,
                    (#[trigger] rows@[k])@,
                    now,
                ),
            forall|id: u128|
                old(self).runs(id) && reported(finished@, id) ==> exists|k: int|
                    0 <= k < rows@.len() && (#[trigger] rows@[k]).uuid == id,
    {
        let ghost start = self.jobs();
        let ghost start_handles = self.handles();
        let ghost start_ids = self.running_ids();
        proof {
            self.lemma_handles_beside_jobs();
        }
        let mut rows: Vec<AnalysisRow> = Vec::new();
        let mut f: usize = 0;
        while f < finished.len()
            invariant
                f <= finished@.len(),
                self.wf(),
                self.settings() == old(self).settings(),
                self.store() == old(self).store(),
                start == old(self).jobs(),
                start_handles == old(self).handles(),
                start_ids == old(self).running_ids(),
                self.handles().len() == self.jobs().len(),
                forall|id: u128|
                    #![trigger self.runs(id)]
                    #![trigger left_running(start_ids, finished@.subrange(0, f as int), id)]
                    self.runs(id) <==> left_running(
                        start_ids,
                        finished@.subrange(0, f as int),
                        id,
                    ),
                forall|j: int|
                    0 <= j < self.jobs().len() ==> kept_entry(
                        start,
                        start_handles,
                        #[trigger] self.jobs()[j],
                        self.handles()[j],
                    ),
                rows@.len() + self.jobs().len() == start.len(),
                forall|k: int|
                    0 <= k < rows@.len() ==> reaped_row(
                        start,
                        finished@,
                        f as int,
                        (#[trigger] rows@[k])@,
                        now,
                    ),
                forall|id: u128|
                    start_ids.contains(id) && reported(finished@.subrange(0, f as int), id)
                        ==> exists|k: int| 0 <= k < rows@.len() && (#[trigger] rows@[k]).uuid == id,
            decreases finished@.len() - f,
        {
            let (uuid, outcome) = finished[f];
            let ghost before = self.jobs();
            let ghost before_handles = self.handles();
            let ghost before_ids = self.running_ids();
            let ghost done = finished@.subrange(0, f as int);
            let ghost rows_before = rows@;
            proof {
                assert forall|id: u128| before_ids.contains(id) <==> left_running(
                    start_ids,
                    done,
                    id,
                ) by {
                    assert(self.runs(id) <==> left_running(start_ids, done, id));
                }
                assert forall|j: int| 0 <= j < before.len() implies kept_entry(
                    start,
                    start_handles,
                    #[trigger] before[j],
                    before_handles[j],
                ) by {
                    assert(kept_entry(start, start_handles, self.jobs()[j], self.handles()[j]));
                }
            }
            let reaped = self.reap(uuid, outcome, now);
            proof {
                let next = finished@.subrange(0, f + 1);
                assert(next =~= done.push(finished@[f as int]));
                assert forall|id: u128| reported(next, id) <==> (reported(done, id) || id
                    == uuid) by {
                    if reported(done, id) {
                        let g = choose|g: int| 0 <= g < done.len() && (#[trigger] done[g]).0 == id;
                        assert(next[g].0 == id);
                    }
                    if id == uuid {
                        assert(next[f as int].0 == id);
                    }
                    if reported(next, id) {
                        let g = choose|g: int| 0 <= g < next.len() && (#[trigger] next[g]).0 == id;
                        if g < f {
                            assert(done[g].0 == id);
                        }
                    }
                }
            }
            match reaped {
                Some(row) => {
                    rows.push(row);
                    proof {
                        let at = choose|i: int|
                            0 <= i < before.len() && (#[trigger] before[i]).analysis_uuid == uuid
                                && self.jobs() == before.remove(i) && self.handles()
                                == before_handles.remove(i) && row@ == job_row(
                                before[i],
                                ended_status(outcome),
                                now,
                            );
                        assert(self.running_ids() =~= before_ids.remove(at));
                        assert(before_ids[at] == uuid);
                        assert forall|id: u128| self.runs(id) <==> (before_ids.contains(id) && id
                            != uuid) by {
                            if self.runs(id) {
                                let j = choose|j: int|
                                    0 <= j < self.running_ids().len() && self.running_ids()[j]
                                        == id;
                                if j < at {
                                    assert(before_ids[j] == id);
                                } else {
                                    assert(before_ids[j + 1] == id);
                                }
                            }
                            if before_ids.contains(id) && id != uuid {
                                let j = choose|j: int|
                                    0 <= j < before_ids.len() && before_ids[j] == id;
                                if j < at {
                                    assert(self.running_ids()[j] == id);
                                } else {
                                    assert(self.running_ids()[j - 1] == id);
                                }
                            }
                        }
                        assert forall|id: u128| self.runs(id) <==> left_running(
                            start_ids,
                            finished@.subrange(0, f + 1),
                            id,
                        ) by {
                            assert(before_ids.contains(id) <==> left_running(start_ids, done, id));
                            assert(reported(finished@.subrange(0, f + 1), id) <==> (reported(
                                done,
                                id,
                            ) || id == uuid));
                        }
                        assert forall|j: int| 0 <= j < self.jobs().len() implies kept_entry(
                            start,
                            start_handles,
                            #[trigger] self.jobs()[j],
                            self.handles()[j],
                        ) by {
                            let j2 = if j < at {
                                j
                            } else {
                                j + 1
                            };
                            assert(self.jobs()[j] == before[j2]);
                            assert(self.handles()[j] == before_handles[j2]);
                            assert(kept_entry(start, start_handles, before[j2], before_handles[j2]));
                        }
                        // the job that was reaped, as it stood at the start
                        assert(kept_entry(start, start_handles, before[at], before_handles[at]));
                        let i0 = choose|i: int|
                            0 <= i < start.len() && i < start_handles.len() && #[trigger] start[i]
                                == before[at] && start_handles[i] == before_handles[at];
                        assert(before_ids.contains(uuid));
                        assert(left_running(start_ids, done, uuid));
                        assert(!reported(done, uuid));
                        assert(first_report(finished@, f as int, start[i0].analysis_uuid)) by {
                            assert forall|g: int| 0 <= g < f implies finished@[g].0 != uuid by {
                                if finished@[g].0 == uuid {
                                    assert(done[g].0 == uuid);
                                }
                            }
                        }
                        assert forall|k: int| 0 <= k < rows@.len() implies reaped_row(
                            start,
                            finished@,
                            f + 1,
                            (#[trigger] rows@[k])@,
                            now,
                        ) by {
                            if k < rows_before.len() {
                                assert(rows@[k] == rows_before[k]);
                                lemma_reaped_row_later(
                                    start,
                                    finished@,
                                    f as int,
                                    rows_before[k]@,
                                    now,
                                );
                            } else {
                                assert(rows@[k] == row);
                                assert(0 <= i0 < start.len() && f < f + 1 && first_report(
                                    finished@,
                                    f as int,
                                    start[i0].analysis_uuid,
                                ) && rows@[k]@ == job_row(
                                    start[i0],
                                    ended_status(finished@[f as int].1),
                                    now,
                                ));
                            }
                        }
                        assert forall|id: u128|
                            start_ids.contains(id) && reported(
                                finished@.subrange(0, f + 1),
                                id,
                            ) implies exists|k: int|
                            0 <= k < rows@.len() && (#[trigger] rows@[k]).uuid == id by {
                            if id == uuid {
                                assert(rows@[rows_before.len() as int].uuid == id);
                            } else {
                                let k = choose|k: int|
                                    0 <= k < rows_before.len() && (#[trigger] rows_before[k]).uuid
                                        == id;
                                assert(rows@[k].uuid == id);
                            }
                        }
                    }
                },
                None => {
                    proof {
                        assert(!before_ids.contains(uuid));
                        assert(self.running_ids() == before_ids);
                        assert forall|id: u128| self.runs(id) <==> left_running(
                            start_ids,
                            finished@.subrange(0, f + 1),
                            id,
                        ) by {
                            assert(before_ids.contains(id) <==> left_running(start_ids, done, id));
                            assert(reported(finished@.subrange(0, f + 1), id) <==> (reported(
                                done,
                                id,
                            ) || id == uuid));
                        }
                        assert forall|k: int| 0 <= k < rows@.len() implies reaped_row(
                            start,
                            finished@,
                            f + 1,
                            (#[trigger] rows@[k])@,
                            now,
                        ) by {
                            lemma_reaped_row_later(start, finished@, f as int, rows@[k]@, now);
                        }
                        assert forall|id: u128|
                            start_ids.contains(id) && reported(
                                finished@.subrange(0, f + 1),
                                id,
                            ) implies exists|k: int|
                            0 <= k < rows@.len() && (#[trigger] rows@[k]).uuid == id by {
                            if id == uuid {
                                assert(before_ids.contains(id) <==> left_running(
                                    start_ids,
                                    done,
                                    id,
                                ));
                            } else {
                                assert(reported(done, id));
                            }
                        }
                    }
                },
            }
            f += 1;
        }
        assert(finished@.subrange(0, f as int) =~= finished@);
        rows
    }
}

/// The row is that of a job of `jobs` that one of the first `upto` entries
/// of the report names first, under the terminal status of that entry.
pub open spec fn reaped_row(
    jobs: Seq<Analysis>,
    finished: Seq<(u128, JobOutcome)>,
    upto: int,
    row: AnalysisView,
    now: AnalysisDate,
) -> bool {
    exists|i: int, f: int|
        #![trigger jobs[i], finished[f]]
        0 <= i < jobs.len() && f < upto && first_report(finished, f, jobs[i].analysis_uuid) && row
            == job_row(jobs[i], ended_status(finished[f].1), now)
}

/// The analysis was running at the start and the report does not name
/// it.
pub open spec fn left_running(start: Seq<u128>, finished: Seq<(u128, JobOutcome)>, uuid: u128) -> bool {
    start.contains(uuid) && !reported(finished, uuid)
}

/// A row that one of the first `upto` entries of the report accounts for
/// is accounted for by one of the first `upto + 1` entries.
proof fn lemma_reaped_row_later(
    jobs: Seq<Analysis>,
    finished: Seq<(u128, JobOutcome)>,
    upto: int,
    row: AnalysisView,
    now: AnalysisDate,
)
    requires
        reaped_row(jobs, finished, upto, row, now),
    ensures
        reaped_row(jobs, finished, upto + 1, row, now),
{
    let (i, f) = choose|i: int, f: int|
        #![trigger jobs[i], finished[f]]
        0 <= i < jobs.len() && f < upto && first_report(finished, f, jobs[i].analysis_uuid) && row
            == job_row(jobs[i], ended_status(finished[f].1), now);
    assert(0 <= i < jobs.len() && f < upto + 1 && first_report(finished, f, jobs[i].analysis_uuid)
        && row == job_row(jobs[i], ended_status(finished[f].1), now));
}

/// The job with that handle is an entry of the running set whose jobs and
/// handles are given.
pub open spec fn kept_entry<H>(
    jobs: Seq<Analysis>,
    handles: Seq<Option<H>>,
    job: Analysis,
    handle: Option<H>,
) -> bool {
    exists|i: int|
        0 <= i < jobs.len() && i < handles.len() && #[trigger] jobs[i] == job && handles[i]
            == handle
}

/// Whether the report names the analysis.
pub open spec fn reported(finished: Seq<(u128, JobOutcome)>, uuid: u128) -> bool {
    exists|g: int| 0 <= g < finished.len() && (#[trigger] finished[g]).0 == uuid
}

/// The entry at `f` is the first of the report that names the analysis.
pub open spec fn first_report(finished: Seq<(u128, JobOutcome)>, f: int, uuid: u128) -> bool {
    &&& 0 <= f < finished.len()
    &&& finished[f].0 == uuid
    &&& forall|g: int| 0 <= g < f ==> (#[trigger] finished[g]).0 != uuid
}

} // verus!
