//! A model of the whole service, the store, the sample files and the
//! running set, and the laws that every step of the service keeps.

use crate::api::deduplicated;
use crate::hasher::hex_text;
use crate::hasher::md5_of;
use crate::hasher::sha1_of;
use crate::hasher::sha256_of;
use crate::hasher::sha512_of;
use crate::status::admitted_status;
use crate::status::requeued_in_place;
use crate::status::status_of_text;
use crate::status::status_text;
use crate::status::AnalysisStatus;
use crate::store::AnalysisView;
use crate::store::SampleView;
use crate::time::AnalysisDate;
use vstd::prelude::*;

verus! {

/// Whether a row is stored as `queued`.
pub open spec fn is_queued(row: AnalysisView) -> bool {
    row.status == "queued"@
}

/// The number of rows that are stored as `queued`.
pub open spec fn count_queued(rows: Seq<AnalysisView>) -> nat
    decreases rows.len(),
{
    if rows.len() == 0 {
        0
    } else {
        count_queued(rows.drop_last()) + if is_queued(rows.last()) {
            1nat
        } else {
            0nat
        }
    }
}

/// The sample row of a content under an identifier.
pub open spec fn sample_of(uuid: u128, data: Seq<u8>) -> SampleView {
    SampleView {
        uuid,
        md5: hex_text(md5_of(data)),
        sha1: hex_text(sha1_of(data)),
        sha256: hex_text(sha256_of(data)),
        sha512: hex_text(sha512_of(data)),
    }
}

/// The two tables of the store.
pub struct Store {
    pub samples: Seq<SampleView>,
    pub analyses: Seq<AnalysisView>,
}

impl Store {
    /// The identifier and each of the four digests occur once in the
    /// table of samples.
    pub open spec fn samples_unique(self) -> bool {
        forall|i: int, j: int|
            0 <= i < j < self.samples.len() ==> {
                &&& (#[trigger] self.samples[i]).uuid != (#[trigger] self.samples[j]).uuid
                &&& self.samples[i].md5 != self.samples[j].md5
                &&& self.samples[i].sha1 != self.samples[j].sha1
                &&& self.samples[i].sha256 != self.samples[j].sha256
                &&& self.samples[i].sha512 != self.samples[j].sha512
            }
    }

    /// The identifier occurs once in the table of analyses.
    pub open spec fn analyses_unique(self) -> bool {
        forall|i: int, j: int|
            0 <= i < j < self.analyses.len() ==> (#[trigger] self.analyses[i]).uuid != (
            #[trigger] self.analyses[j]).uuid
    }

    pub open spec fn has_sample(self, uuid: u128) -> bool {
        exists|i: int| 0 <= i < self.samples.len() && (#[trigger] self.samples[i]).uuid == uuid
    }

    pub open spec fn has_analysis(self, uuid: u128) -> bool {
        exists|i: int| 0 <= i < self.analyses.len() && (#[trigger] self.analyses[i]).uuid == uuid
    }

    /// Every analysis refers to a stored sample.
    pub open spec fn references_hold(self) -> bool {
        forall|i: int|
            0 <= i < self.analyses.len() ==> self.has_sample((#[trigger] self.analyses[i]).sample_uuid)
    }

    /// Every stored status is one of `unqueued`, `queued`, `terminated`
    /// and `failed`: `running` is not among them.
    pub open spec fn statuses_stored(self) -> bool {
        forall|i: int|
            0 <= i < self.analyses.len() ==> stored_status((#[trigger] self.analyses[i]).status)
    }

    /// The constraints of the schema and the rule of the statuses.
    pub open spec fn wf(self) -> bool {
        &&& self.samples_unique()
        &&& self.analyses_unique()
        &&& self.references_hold()
        &&& self.statuses_stored()
    }

    /// Whether a row holds the SHA-512.
    pub open spec fn knows_sha512(self, sha512: Seq<char>) -> bool {
        exists|i: int| 0 <= i < self.samples.len() && (#[trigger] self.samples[i]).sha512 == sha512
    }

    /// The stored sample with a SHA-512, if there is one.
    pub open spec fn sample_with_sha512(self, sha512: Seq<char>) -> Option<SampleView> {
        if self.knows_sha512(sha512) {
            Some(
                self.samples[choose|i: int|
                    0 <= i < self.samples.len() && (#[trigger] self.samples[i]).sha512 == sha512],
            )
        } else {
            None
        }
    }

    /// Whether a unique column of the table of samples already holds a
    /// value of the row: the insert of such a row is refused.
    pub open spec fn sample_conflicts(self, row: SampleView) -> bool {
        exists|i: int|
            0 <= i < self.samples.len() && {
                ||| (#[trigger] self.samples[i]).uuid == row.uuid
                ||| self.samples[i].md5 == row.md5
                ||| self.samples[i].sha1 == row.sha1
                ||| self.samples[i].sha256 == row.sha256
                ||| self.samples[i].sha512 == row.sha512
            }
    }

    /// The place of an analysis in its table.
    pub open spec fn place_of(self, uuid: u128) -> int {
        choose|i: int| 0 <= i < self.analyses.len() && (#[trigger] self.analyses[i]).uuid == uuid
    }

    /// The store after the row of an analysis was replaced by `row`.
    pub open spec fn updated(self, row: AnalysisView) -> Store {
        if self.has_analysis(row.uuid) {
            Store {
                samples: self.samples,
                analyses: self.analyses.update(self.place_of(row.uuid), row),
            }
        } else {
            self
        }
    }
}

/// The text is that of a status that may stand in the store.
pub open spec fn stored_status(text: Seq<char>) -> bool {
    status_of_text(text) matches Some(s) && s.is_stored()
}

/// One submission: the body, the identifiers drawn for it, what the
/// caller gave, the number of queued rows that the admission check saw,
/// and the instant.
pub struct Submission {
    pub data: Seq<u8>,
    pub fresh_sample: u128,
    pub fresh_analysis: u128,
    pub sandbox: Seq<char>,
    pub submission_name: Option<Seq<char>>,
    pub client_ip: Seq<char>,
    pub observed_queued: int,
    pub now: AnalysisDate,
}

/// The service: the store, the sample files by identifier, the running
/// set and the two caps.
pub struct System {
    pub store: Store,
    pub files: Map<u128, Seq<u8>>,
    pub running: Set<u128>,
    pub max_queue: int,
    pub max_running: int,
}

impl System {
    /// Every sample row holds the SHA-512 of its file.
    pub open spec fn files_hold_sha512(self) -> bool {
        forall|i: int|
            0 <= i < self.store.samples.len() ==> self.files.dom().contains(
                (#[trigger] self.store.samples[i]).uuid,
            ) && self.store.samples[i].sha512 == hex_text(
                sha512_of(self.files[self.store.samples[i].uuid]),
            )
    }

    /// Every sample row holds the four digests of its file.
    pub open spec fn files_match(self) -> bool {
        forall|i: int|
            0 <= i < self.store.samples.len() ==> self.files.dom().contains(
                (#[trigger] self.store.samples[i]).uuid,
            ) && self.store.samples[i] == sample_of(
                self.store.samples[i].uuid,
                self.files[self.store.samples[i].uuid],
            )
    }

    /// What holds of the service at any instant.
    pub open spec fn inv(self) -> bool {
        &&& self.store.wf()
        &&& self.files_hold_sha512()
        &&& self.running.finite()
        &&& self.running.len() <= self.max_running
        &&& count_queued(self.store.analyses) <= self.max_queue + 1
    }

    /// The identifier under which the sample of a submission is kept.
    pub open spec fn sample_uuid_for(self, s: Submission) -> u128 {
        deduplicated(
            self.store.sample_with_sha512(hex_text(sha512_of(s.data))),
            s.fresh_sample,
        )
    }

    /// The analysis row of a submission.
    pub open spec fn row_for(self, s: Submission) -> AnalysisView {
        AnalysisView {
            uuid: s.fresh_analysis,
            sample_uuid: self.sample_uuid_for(s),
            sandbox_name: s.sandbox,
            submission_name: s.submission_name,
            date: s.now,
            src_ip: s.client_ip,
            status: status_text(admitted_status(s.observed_queued, self.max_queue)),
        }
    }

    /// Whether the store takes the rows of a submission: the sample is
    /// known or its row breaks no unique column, and the identifier of
    /// the analysis is not in use.
    pub open spec fn accepts(self, s: Submission) -> bool {
        &&& self.store.knows_sha512(hex_text(sha512_of(s.data))) || !self.store.sample_conflicts(
            sample_of(s.fresh_sample, s.data),
        )
        &&& !self.store.has_analysis(s.fresh_analysis)
    }

    /// The service after a submission: the body is written under the
    /// identifier of its sample; where the store takes the rows, the
    /// sample row is added unless the sample is known, and the analysis
    /// row is added. A submission whose rows are refused leaves the
    /// store as it was.
    pub open spec fn ingest(self, s: Submission) -> System {
        let uuid = self.sample_uuid_for(s);
        let files = self.files.insert(uuid, s.data);
        if self.accepts(s) {
            System {
                store: Store {
                    samples: if self.store.knows_sha512(hex_text(sha512_of(s.data))) {
                        self.store.samples
                    } else {
                        self.store.samples.push(sample_of(uuid, s.data))
                    },
                    analyses: self.store.analyses.push(self.row_for(s)),
                },
                files,
                running: self.running,
                max_queue: self.max_queue,
                max_running: self.max_running,
            }
        } else {
            System {
                store: self.store,
                files,
                running: self.running,
                max_queue: self.max_queue,
                max_running: self.max_running,
            }
        }
    }

    /// The service after the admission of an analysis: it joins the
    /// running set where the set has room; the store is not written.
    pub open spec fn attach(self, uuid: u128) -> System {
        if self.running.len() < self.max_running {
            System {
                store: self.store,
                files: self.files,
                running: self.running.insert(uuid),
                max_queue: self.max_queue,
                max_running: self.max_running,
            }
        } else {
            self
        }
    }

    /// The service after a finished job was reaped: its row is updated
    /// and it leaves the running set.
    pub open spec fn reap(self, row: AnalysisView) -> System {
        System {
            store: self.store.updated(row),
            files: self.files,
            running: self.running.remove(row.uuid),
            max_queue: self.max_queue,
            max_running: self.max_running,
        }
    }

    /// The service after an analysis was queued again in place.
    pub open spec fn requeue(self, row: AnalysisView) -> System {
        System {
            store: self.store.updated(row),
            files: self.files,
            running: self.running,
            max_queue: self.max_queue,
            max_running: self.max_running,
        }
    }

    /// The row with which a stored analysis is run again: its own row
    /// under a fresh date where it is queued again in place, else a new
    /// row of the same sample and submission name under the fresh
    /// identifier; either under the status of the admission rule.
    pub open spec fn rerun_row(
        self,
        found: AnalysisView,
        status: AnalysisStatus,
        fresh: u128,
        sandbox: Seq<char>,
        client_ip: Seq<char>,
        observed_queued: int,
        now: AnalysisDate,
    ) -> AnalysisView {
        if requeued_in_place(status) {
            AnalysisView {
                uuid: found.uuid,
                sample_uuid: found.sample_uuid,
                sandbox_name: found.sandbox_name,
                submission_name: found.submission_name,
                date: now,
                src_ip: found.src_ip,
                status: status_text(admitted_status(observed_queued, self.max_queue)),
            }
        } else {
            AnalysisView {
                uuid: fresh,
                sample_uuid: found.sample_uuid,
                sandbox_name: sandbox,
                submission_name: found.submission_name,
                date: now,
                src_ip: client_ip,
                status: status_text(admitted_status(observed_queued, self.max_queue)),
            }
        }
    }

    /// The service after a stored analysis was run again: its row is
    /// replaced where it is queued again in place, else the new row is
    /// added.
    pub open spec fn rerun(
        self,
        found: AnalysisView,
        status: AnalysisStatus,
        fresh: u128,
        sandbox: Seq<char>,
        client_ip: Seq<char>,
        observed_queued: int,
        now: AnalysisDate,
    ) -> System {
        let row = self.rerun_row(found, status, fresh, sandbox, client_ip, observed_queued, now);
        if requeued_in_place(status) {
            self.requeue(row)
        } else {
            System {
                store: Store { samples: self.store.samples, analyses: self.store.analyses.push(row) },
                files: self.files,
                running: self.running,
                max_queue: self.max_queue,
                max_running: self.max_running,
            }
        }
    }

    /// The service after a restart: the store and the files as they
    /// were, the running set empty.
    pub open spec fn restart(self) -> System {
        System {
            store: self.store,
            files: self.files,
            running: Set::empty(),
            max_queue: self.max_queue,
            max_running: self.max_running,
        }
    }
}

} // verus!
