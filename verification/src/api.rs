//! The decisions behind the API: submission, re-run, search and the paths
//! of the artifacts.

use crate::analyzer::Analysis as Job;
use crate::analyzer::Analyzer;
use crate::config::Config;
use crate::hasher::Metadata;
use crate::ident::fresh_uuid;
use crate::ident::parse_uuid;
use crate::ident::uuid_parsed;
use crate::status::requeued_in_place;
use crate::status::reruns_in_place;
use crate::status::status_of_text;
use crate::status::AnalysisStatus;
use crate::store::AnalysisRow;
use crate::store::SampleRow;
use crate::store::SampleView;
use crate::text::joined;
use crate::text::opt_text;
use crate::time::AnalysisDate;
use vstd::prelude::*;
use vstd::string::*;

verus! {

/// An error that is reported to the caller of the API.
#[derive(Debug, PartialEq, Eq)]
pub enum ApiError {
    Msg(String),
}

impl ApiError {
    pub fn msg(s: &str) -> (e: ApiError)
        ensures
            e matches ApiError::Msg(m) && m@ == s@,
    {
        ApiError::Msg(String::from_str(s))
    }

    pub open spec fn text(&self) -> Seq<char> {
        match self {
            ApiError::Msg(m) => m@,
        }
    }

    pub fn to_string(&self) -> (r: String)
        ensures
            r@ == self.text(),
    {
        match self {
            ApiError::Msg(m) => m.clone(),
        }
    }
}

/// The number of results of a search: 25 where none or a negative one is
/// asked for, and never more than 100.
pub open spec fn limit_of(limit: Option<i64>) -> u64 {
    match limit {
        None => 25,
        Some(l) => if l < 0 {
            25
        } else if l > 100 {
            100
        } else {
            l as u64
        },
    }
}

/// The first result of a search: the start where no offset is asked for.
pub open spec fn offset_of(offset: Option<u64>) -> u64 {
    match offset {
        None => 0,
        Some(o) => o,
    }
}

/// The window of a search: how many results, and from which one on.
pub fn search_window(limit: Option<i64>, offset: Option<u64>) -> (w: (u64, u64))
    ensures
        w.0 == limit_of(limit),
        w.1 == offset_of(offset),
        w.0 <= 100,
{
    let limit = match limit {
        None => 25,
        Some(l) => if l < 0 {
            25
        } else if l > 100 {
            100
        } else {
            l as u64
        },
    };
    let offset = match offset {
        None => 0,
        Some(o) => o,
    };
    (limit, offset)
}

/// An analysis as a search shows it.
#[derive(Debug, PartialEq, Eq)]
pub struct Analysis {
    pub uuid: u128,
    pub date: AnalysisDate,
    pub submission_name: Option<String>,
    pub status: AnalysisStatus,
    pub sample: Option<SampleRow>,
}

impl Analysis {
    /// An analysis row and the rows of its sample, as a search shows them:
    /// the stored status, and the last of the sample rows. An error where
    /// the stored text is no status.
    pub fn from(value: (AnalysisRow, Vec<SampleRow>)) -> (r: Result<Analysis, ApiError>)
        ensures
            match status_of_text(value.0.status@) {
                Some(s) => r matches Ok(a) && a.uuid == value.0.uuid && a.date == value.0.date
                    && a.submission_name == value.0.submission_name && a.status == s && a.sample == (
                if value.1@.len() > 0 {
                    Some(value.1@.last())
                } else {
                    None
                }),
                None => r matches Err(ApiError::Msg(m)) && m@
                    == "failed to convert analysis status from string"@,
            },
    {
        let (row, mut samples) = value;
        let status = match AnalysisStatus::from_str(row.status.as_str()) {
            Some(s) => s,
            None => {
                return Err(ApiError::msg("failed to convert analysis status from string"));
            },
        };
        Ok(
            Analysis {
                uuid: row.uuid,
                date: row.date,
                submission_name: row.submission_name,
                status,
                sample: samples.pop(),
            },
        )
    }

    /// The same analysis, shown as `running` where it is in the running
    /// set.
    pub fn shown<D, H>(self, analyzer: &Analyzer<D, H>) -> (a: Analysis)
        ensures
            a.uuid == self.uuid,
            a.date == self.date,
            a.submission_name == self.submission_name,
            a.sample == self.sample,
            a.status == (if analyzer.runs(self.uuid) {
                AnalysisStatus::running
            } else {
                self.status
            }),
    {
        let mut a = self;
        if analyzer.is_running(&a.uuid) {
            a.status = AnalysisStatus::running;
        }
        a
    }
}

/// The artifacts of an analysis.
#[derive(Clone, Copy, Debug, PartialEq, Eq, Structural)]
pub enum Artifact {
    Metadata,
    Sandbox,
    Pcap,
    Logs,
    Graph,
    MispEvent,
}

/// The path of an artifact of an analysis under the data directory.
pub open spec fn artifact_path_text(c: &Config, artifact: Artifact, uuid: u128) -> Seq<char> {
    match artifact {
        Artifact::Metadata => joined(c.analysis_dir_text(uuid), Job::METADATA_FILENAME@),
        Artifact::Sandbox => joined(c.analysis_dir_text(uuid), Job::SANDBOX_FILENAME@),
        Artifact::Pcap => joined(c.sandbox_analysis_dir_text(uuid), "dump.pcap"@),
        Artifact::Logs => joined(c.sandbox_analysis_dir_text(uuid), "kunai.jsonl.gz"@),
        Artifact::Graph => joined(c.sandbox_analysis_dir_text(uuid), "graph.svg"@),
        Artifact::MispEvent => joined(c.sandbox_analysis_dir_text(uuid), "misp-event.json"@),
    }
}

/// The path of an artifact of a known analysis.
pub fn artifact_path_of(c: &Config, artifact: Artifact, uuid: u128) -> (p: String)
    ensures
        p@ == artifact_path_text(c, artifact, uuid),
{
    match artifact {
        Artifact::Metadata => c.sample_metadata_json_file(uuid),
        Artifact::Sandbox => c.analysis_sandbox_json_file(uuid),
        Artifact::Pcap => c.analysis_pcap_file(uuid),
        Artifact::Logs => c.analysis_log_file(uuid),
        Artifact::Graph => c.analysis_graph_file(uuid),
        Artifact::MispEvent => c.analysis_misp_event_file(uuid),
    }
}

/// The path of an artifact of the analysis that a request names; `None`
/// where the text of the request is no identifier.
pub fn artifact_path(c: &Config, artifact: Artifact, uuid: &str) -> (p: Option<String>)
    ensures
        match uuid_parsed(uuid@) {
            Some(id) => p matches Some(t) && t@ == artifact_path_text(c, artifact, id),
            None => p is None,
        },
{
    match parse_uuid(uuid) {
        Some(id) => Some(artifact_path_of(c, artifact, id)),
        None => None,
    }
}

/// The identifier that a request names; an error where its text is no
/// identifier.
pub fn requested_uuid(uuid: &str) -> (r: Result<u128, ApiError>)
    ensures
        match uuid_parsed(uuid@) {
            Some(id) => r == Ok::<u128, ApiError>(id),
            None => r matches Err(ApiError::Msg(m)) && m@ == "cannot parse uuid"@,
        },
{
    match parse_uuid(uuid) {
        Some(id) => Ok(id),
        None => Err(ApiError::msg("cannot parse uuid")),
    }
}

/// A submission on its way: the job, and whether its sample is already in
/// the store.
#[derive(Debug, PartialEq, Eq)]
pub struct Ingress {
    pub analysis: Job,
    pub sample_in_db: bool,
}

/// The identifier under which a submission's sample is kept: that of the
/// stored sample with the same SHA-512 where there is one, a fresh one
/// else.
pub open spec fn deduplicated(existing: Option<SampleView>, fresh: u128) -> u128 {
    match existing {
        Some(row) => row.uuid,
        None => fresh,
    }
}

impl Ingress {
    /// Starts a submission under given identifiers. `existing` is the
    /// stored sample with the SHA-512 of the body, if there is one: its
    /// identifier is used again.
    pub fn begin_with(
        c: &Config,
        existing: Option<&SampleRow>,
        fresh_sample: u128,
        fresh_analysis: u128,
        sandbox: Option<String>,
        submission_name: Option<String>,
        client_ip: String,
    ) -> (g: Ingress)
        ensures
            g.sample_in_db == existing is Some,
            g.analysis.describes(
                c,
                fresh_analysis,
                c.resolved(opt_text(sandbox)),
                deduplicated(
                    match existing {
                        Some(row) => Some(row@),
                        None => None,
                    },
                    fresh_sample,
                ),
                opt_text(submission_name),
                client_ip@,
            ),
    {
        let (sample_uuid, sample_in_db) = match existing {
            Some(row) => (row.uuid, true),
            None => (fresh_sample, false),
        };
        Ingress {
            analysis: Job::with_uuid(
                c,
                fresh_analysis,
                sandbox,
                sample_uuid,
                submission_name,
                client_ip,
            ),
            sample_in_db,
        }
    }

    /// Starts a submission under fresh random identifiers.
    pub fn begin(
        c: &Config,
        existing: Option<&SampleRow>,
        sandbox: Option<String>,
        submission_name: Option<String>,
        client_ip: String,
    ) -> (g: Ingress)
        ensures
            g.sample_in_db == existing is Some,
            existing matches Some(row) ==> g.analysis.sample_uuid == row.uuid,
            g.analysis.describes(
                c,
                g.analysis.analysis_uuid,
                c.resolved(opt_text(sandbox)),
                g.analysis.sample_uuid,
                opt_text(submission_name),
                client_ip@,
            ),
    {
        let fresh_sample = fresh_uuid();
        let fresh_analysis = fresh_uuid();
        Ingress::begin_with(
            c,
            existing,
            fresh_sample,
            fresh_analysis,
            sandbox,
            submission_name,
            client_ip,
        )
    }

    /// The sample row to insert: none where the sample is already in the
    /// store, else the row of the job's sample with the digests of its
    /// metadata.
    pub fn sample_row(&self, metadata: &Metadata) -> (r: Option<SampleRow>)
        ensures
            r is None <==> self.sample_in_db,
            r matches Some(row) ==> row@ == (SampleView {
                uuid: self.analysis.sample_uuid,
                md5: metadata.md5@,
                sha1: metadata.sha1@,
                sha256: metadata.sha256@,
                sha512: metadata.sha512@,
            }),
    {
        if self.sample_in_db {
            None
        } else {
            Some(SampleRow::of_metadata(self.analysis.sample_uuid, metadata))
        }
    }

    /// Goes on with the stored sample after the insert of the sample row
    /// lost against another submission of the same content: the job now
    /// points at the stored sample.
    pub fn adopt(self, c: &Config, existing: &SampleRow) -> (g: Ingress)
        ensures
            g.sample_in_db,
            g.analysis.sample_uuid == existing.uuid,
            g.analysis.sample_path@ == c.sample_path_text(existing.uuid),
            g.analysis.analysis_uuid == self.analysis.analysis_uuid,
            g.analysis.analysis_dir == self.analysis.analysis_dir,
            g.analysis.sandbox == self.analysis.sandbox,
            g.analysis.submission_name == self.analysis.submission_name,
            g.analysis.client_ip == self.analysis.client_ip,
            g.analysis.metadata == self.analysis.metadata,
    {
        let mut g = self;
        g.sample_in_db = true;
        g.analysis.sample_uuid = existing.uuid;
        g.analysis.sample_path = c.sample_path(existing.uuid);
        g
    }
}

impl Ingress {
    /// What follows the insert of the sample row. A row that was inserted
    /// changes nothing. A row that the store refused was beaten by another
    /// submission of the same content: the submission goes on with the
    /// stored sample of that content, as `adopt` says, and fails where the
    /// store holds none.
    pub fn after_insert(self, c: &Config, inserted: bool, stored: Option<&SampleRow>) -> (r: Result<
        Ingress,
        ApiError,
    >)
        ensures
            inserted ==> r == Ok::<Ingress, ApiError>(self),
            !inserted && stored is Some ==> (r matches Ok(g) && {
                &&& g.sample_in_db
                &&& g.analysis.sample_uuid == stored->0.uuid
                &&& g.analysis.sample_path@ == c.sample_path_text(stored->0.uuid)
                &&& g.analysis.analysis_uuid == self.analysis.analysis_uuid
                &&& g.analysis.analysis_dir == self.analysis.analysis_dir
                &&& g.analysis.sandbox == self.analysis.sandbox
                &&& g.analysis.submission_name == self.analysis.submission_name
                &&& g.analysis.client_ip == self.analysis.client_ip
                &&& g.analysis.metadata == self.analysis.metadata
            }),
            !inserted && stored is None ==> (r matches Err(ApiError::Msg(m)) && m@
                == "failed to insert sample into database"@),
    {
        if inserted {
            return Ok(self);
        }
        match stored {
            Some(row) => Ok(self.adopt(c, row)),
            None => Err(ApiError::msg("failed to insert sample into database")),
        }
    }
}

/// How an analysis is run again.
#[derive(Debug, PartialEq, Eq)]
pub enum Rerun {
    /// The stored row is queued again under its own identifier.
    InPlace(Job),
    /// A new analysis is made under a fresh identifier.
    Fresh(Job),
}

/// The sandbox name of a new analysis that a re-run makes: the name that
/// the caller gives, resolved as that of a submission; else the name of
/// the stored row, as it is.
pub open spec fn rerun_sandbox(c: &Config, given: Option<Seq<char>>, stored: Seq<char>) -> Seq<
    char,
> {
    match given {
        Some(n) => c.resolved(Some(n)),
        None => stored,
    }
}

/// Plans the re-run of a stored analysis, with `fresh` as the identifier
/// of a new analysis should one be needed. An `unqueued` or `failed`
/// analysis keeps its row as it is; any other gives a new analysis of the
/// same sample and submission name, in the sandbox that the caller names
/// or else in that of the row. The name of the row is handed on as it is,
/// also where it is no longer configured: it is resolved when the job is
/// started.
pub fn rerun_with(
    c: &Config,
    found: AnalysisRow,
    fresh: u128,
    sandbox: Option<String>,
    client_ip: String,
) -> (r: Result<Rerun, ApiError>)
    ensures
        match status_of_text(found.status@) {
            None => r matches Err(ApiError::Msg(m)) && m@
                == "failed to convert analysis status from string"@,
            Some(s) => if requeued_in_place(s) {
                r matches Ok(Rerun::InPlace(a)) && a.describes(
                    c,
                    found.uuid,
                    found.sandbox_name@,
                    found.sample_uuid,
                    opt_text(found.submission_name),
                    found.src_ip@,
                )
            } else {
                r matches Ok(Rerun::Fresh(a)) && a.describes(
                    c,
                    fresh,
                    rerun_sandbox(c, opt_text(sandbox), found.sandbox_name@),
                    found.sample_uuid,
                    opt_text(found.submission_name),
                    client_ip@,
                )
            },
        },
{
    let status = match AnalysisStatus::from_str(found.status.as_str()) {
        Some(s) => s,
        None => {
            return Err(ApiError::msg("failed to convert analysis status from string"));
        },
    };
    if reruns_in_place(status) {
        Ok(Rerun::InPlace(Job::from_model_with_config(found, c)))
    } else {
        let job = match sandbox {
            Some(n) => Job::with_uuid(
                c,
                fresh,
                Some(n),
                found.sample_uuid,
                found.submission_name,
                client_ip,
            ),
            None => Job::in_sandbox(
                c,
                fresh,
                found.sandbox_name,
                found.sample_uuid,
                found.submission_name,
                client_ip,
            ),
        };
        Ok(Rerun::Fresh(job))
    }
}

/// Plans the re-run of an analysis: nothing where the store has no such
/// analysis, else the plan of `rerun_with` under a fresh random
/// identifier.
pub fn rerun(c: &Config, found: Option<AnalysisRow>, sandbox: Option<String>, client_ip: String) -> (r:
    Result<Option<Rerun>, ApiError>)
    ensures
        found is None ==> r matches Ok(None),
        found matches Some(row) ==> match status_of_text(row.status@) {
            None => r matches Err(ApiError::Msg(m)) && m@
                == "failed to convert analysis status from string"@,
            Some(s) => if requeued_in_place(s) {
                r matches Ok(Some(Rerun::InPlace(a))) && a.describes(
                    c,
                    row.uuid,
                    row.sandbox_name@,
                    row.sample_uuid,
                    opt_text(row.submission_name),
                    row.src_ip@,
                )
            } else {
                r matches Ok(Some(Rerun::Fresh(a))) && a.describes(
                    c,
                    a.analysis_uuid,
                    rerun_sandbox(c, opt_text(sandbox), row.sandbox_name@),
                    row.sample_uuid,
                    opt_text(row.submission_name),
                    client_ip@,
                )
            },
        },
{
    match found {
        None => Ok(None),
        Some(row) => match rerun_with(c, row, fresh_uuid(), sandbox, client_ip) {
            Ok(plan) => Ok(Some(plan)),
            Err(e) => Err(e),
        },
    }
}

} // verus!
