//! The laws of the service, proved of the model: each step keeps what
//! holds of the store, the sample files and the running set.

use crate::analyzer::job_row;
use crate::analyzer::Analysis;
use crate::analyzer::Analyzer;
use crate::config::Config;
use crate::status::requeued_in_place;
use crate::store::AnalysisRow;
use crate::time::AnalysisDate;
use crate::hasher::hex_text;
use crate::hasher::Metadata;
use crate::hasher::sha512_of;
use crate::model::count_queued;
use crate::model::is_queued;
use crate::model::sample_of;
use crate::model::stored_status;
use crate::model::Store;
use crate::model::Submission;
use crate::model::System;
use crate::status::admitted_status;
use crate::status::ended_status;
use crate::status::lemma_status_text_round_trip;
use crate::status::status_of_text;
use crate::status::status_text;
use crate::status::AnalysisStatus;
use crate::status::JobOutcome;
use crate::store::AnalysisView;
use crate::store::SampleView;
use vstd::prelude::*;

verus! {

/// The text of a status is that of `queued` for `queued` alone, and every
/// status but `running` may stand in the store.
pub proof fn lemma_status_texts(s: AnalysisStatus)
    ensures
        (status_text(s) == "queued"@) == (s == AnalysisStatus::queued),
        stored_status(status_text(s)) == (s != AnalysisStatus::running),
{
    lemma_status_text_round_trip(s);
    lemma_status_text_round_trip(AnalysisStatus::queued);
}

/// One more row adds one to the number of queued rows where it is queued,
/// and nothing else.
pub proof fn lemma_count_queued_push(rows: Seq<AnalysisView>, row: AnalysisView)
    ensures
        count_queued(rows.push(row)) == count_queued(rows) + (if is_queued(row) {
            1nat
        } else {
            0nat
        }),
{
    assert(rows.push(row).drop_last() =~= rows);
}

/// A replaced row changes the number of queued rows by what it was and
/// what it is.
pub proof fn lemma_count_queued_update(rows: Seq<AnalysisView>, i: int, row: AnalysisView)
    requires
        0 <= i < rows.len(),
    ensures
        count_queued(rows.update(i, row)) + (if is_queued(rows[i]) {
            1nat
        } else {
            0nat
        }) == count_queued(rows) + (if is_queued(row) {
            1nat
        } else {
            0nat
        }),
    decreases rows.len(),
{
    if i == rows.len() - 1 {
        assert(rows.update(i, row).drop_last() =~= rows.drop_last());
    } else {
        assert(rows.update(i, row).drop_last() =~= rows.drop_last().update(i, row));
        lemma_count_queued_update(rows.drop_last(), i, row);
    }
}

/// A store with unique digests holds at most one sample with a SHA-512:
/// the lookup by SHA-512 finds the row that holds it.
pub proof fn lemma_sample_lookup(store: Store, i: int)
    requires
        store.samples_unique(),
        0 <= i < store.samples.len(),
    ensures
        store.sample_with_sha512(store.samples[i].sha512) == Some(store.samples[i]),
{
    let h = store.samples[i].sha512;
    assert(store.knows_sha512(h));
    let k = choose|k: int| 0 <= k < store.samples.len() && (#[trigger] store.samples[k]).sha512 == h;
    assert(k == i);
}

/// A submission keeps what holds of the service. The identifier and each
/// of the four digests of a sample occur once in the table, and the
/// SHA-512 of every sample row is that of its file; no stored status is
/// `running`; and the number of queued rows stays within one above the
/// cap, the one being the row that a concurrent submission may have
/// queued between the admission check and the insert.
///
/// The identifier drawn for the sample is not in use.
pub proof fn law_submission_keeps_invariant(sys: System, s: Submission)
    requires
        sys.inv(),
        !sys.store.has_sample(s.fresh_sample),
        s.observed_queued <= count_queued(sys.store.analyses) <= s.observed_queued + 1,
    ensures
        sys.ingest(s).inv(),
        sys.ingest(s).running == sys.running,
{
    let after = sys.ingest(s);
    let sha = hex_text(sha512_of(s.data));
    let uuid = sys.sample_uuid_for(s);
    let known = sys.store.knows_sha512(sha);
    let old_samples = sys.store.samples;
    let n = old_samples.len() as int;
    let k = choose|k: int| 0 <= k < n && (#[trigger] old_samples[k]).sha512 == sha;
    if known {
        assert(uuid == old_samples[k].uuid);
    } else {
        assert(uuid == s.fresh_sample);
    }
    // every sample row still holds the SHA-512 of its file
    assert forall|i: int| 0 <= i < after.store.samples.len() implies after.files.dom().contains(
        (#[trigger] after.store.samples[i]).uuid,
    ) && after.store.samples[i].sha512 == hex_text(
        sha512_of(after.files[after.store.samples[i].uuid]),
    ) by {
        if i < n {
            assert(after.store.samples[i] == old_samples[i]);
            if old_samples[i].uuid == uuid {
                // the row is the stored sample with the SHA-512 of the body
                assert(known);
                assert(i == k);
            }
        }
    }
    if sys.accepts(s) {
        let row = sys.row_for(s);
        lemma_status_texts(admitted_status(s.observed_queued, sys.max_queue));
        lemma_count_queued_push(sys.store.analyses, row);
        assert(after.store.samples_unique()) by {
            if !known {
                assert forall|i: int, j: int| 0 <= i < j < after.store.samples.len() implies {
                    &&& (#[trigger] after.store.samples[i]).uuid != (
                    #[trigger] after.store.samples[j]).uuid
                    &&& after.store.samples[i].md5 != after.store.samples[j].md5
                    &&& after.store.samples[i].sha1 != after.store.samples[j].sha1
                    &&& after.store.samples[i].sha256 != after.store.samples[j].sha256
                    &&& after.store.samples[i].sha512 != after.store.samples[j].sha512
                } by {
                    if j == n {
                        assert(after.store.samples[i] == old_samples[i]);
                    } else {
                        assert(after.store.samples[i] == old_samples[i]);
                        assert(after.store.samples[j] == old_samples[j]);
                    }
                }
            }
        }
        assert(after.store.analyses_unique()) by {
            assert forall|i: int, j: int| 0 <= i < j < after.store.analyses.len() implies (
            #[trigger] after.store.analyses[i]).uuid != (#[trigger] after.store.analyses[j]).uuid by {
                assert(after.store.analyses[i] == sys.store.analyses[i]);
                if j < sys.store.analyses.len() {
                    assert(after.store.analyses[j] == sys.store.analyses[j]);
                }
            }
        }
        assert(after.store.has_sample(uuid)) by {
            if known {
                let k = choose|k: int| 0 <= k < n && (#[trigger] old_samples[k]).sha512 == sha;
                assert(after.store.samples[k].uuid == uuid);
            } else {
                assert(after.store.samples[n].uuid == uuid);
            }
        }
        assert(after.store.references_hold()) by {
            assert forall|i: int| 0 <= i < after.store.analyses.len() implies after.store.has_sample(
                (#[trigger] after.store.analyses[i]).sample_uuid,
            ) by {
                if i < sys.store.analyses.len() {
                    assert(after.store.analyses[i] == sys.store.analyses[i]);
                    let k = choose|k: int|
                        0 <= k < n && (#[trigger] old_samples[k]).uuid
                            == sys.store.analyses[i].sample_uuid;
                    assert(after.store.samples[k] == old_samples[k]);
                }
            }
        }
        assert(after.store.statuses_stored()) by {
            assert forall|i: int| 0 <= i < after.store.analyses.len() implies stored_status(
                (#[trigger] after.store.analyses[i]).status,
            ) by {
                if i < sys.store.analyses.len() {
                    assert(after.store.analyses[i] == sys.store.analyses[i]);
                }
            }
        }
    }
}

/// A submission keeps every sample row holding the four digests of its
/// file.
///
/// The identifier drawn for the sample is not in use, and the body is
/// that of the stored sample with the same SHA-512, if there is one.
pub proof fn law_submission_keeps_digests_of_files(sys: System, s: Submission)
    requires
        sys.store.samples_unique(),
        sys.files_match(),
        !sys.store.has_sample(s.fresh_sample),
        sys.store.sample_with_sha512(hex_text(sha512_of(s.data))) matches Some(known)
            ==> sys.files[known.uuid] == s.data,
    ensures
        sys.ingest(s).files_match(),
{
    let after = sys.ingest(s);
    let sha = hex_text(sha512_of(s.data));
    let uuid = sys.sample_uuid_for(s);
    let known = sys.store.knows_sha512(sha);
    let old_samples = sys.store.samples;
    let n = old_samples.len() as int;
    if known {
        let k = choose|k: int| 0 <= k < n && (#[trigger] old_samples[k]).sha512 == sha;
        assert(uuid == old_samples[k].uuid);
        assert(sys.files[uuid] == s.data);
    } else {
        assert(uuid == s.fresh_sample);
    }
    assert forall|i: int| 0 <= i < after.store.samples.len() implies after.files.dom().contains(
        (#[trigger] after.store.samples[i]).uuid,
    ) && after.store.samples[i] == sample_of(
        after.store.samples[i].uuid,
        after.files[after.store.samples[i].uuid],
    ) by {
        if i < n {
            assert(after.store.samples[i] == old_samples[i]);
            if old_samples[i].uuid == uuid {
                assert(known);
                assert(sys.files[uuid] == s.data);
            }
        }
    }
}

/// The same bytes submitted twice give two analyses of one sample, and
/// one row in the table of samples: the second submission adds none.
///
/// Both submissions are taken by the store.
pub proof fn law_same_bytes_share_sample(sys: System, first: Submission, second: Submission)
    requires
        sys.inv(),
        first.data == second.data,
        sys.accepts(first),
        sys.ingest(first).accepts(second),
    ensures
        ({
            let one = sys.ingest(first);
            let two = one.ingest(second);
            &&& two.store.samples == one.store.samples
            &&& one.row_for(second).sample_uuid == sys.row_for(first).sample_uuid
            &&& two.store.analyses == sys.store.analyses.push(sys.row_for(first)).push(
                one.row_for(second),
            )
            &&& forall|i: int, j: int|
                0 <= i < two.store.samples.len() && 0 <= j < two.store.samples.len()
                    && two.store.samples[i].sha512 == hex_text(sha512_of(first.data))
                    && two.store.samples[j].sha512 == hex_text(sha512_of(first.data)) ==> i == j
        }),
{
    let sha = hex_text(sha512_of(first.data));
    let one = sys.ingest(first);
    let two = one.ingest(second);
    let n = sys.store.samples.len() as int;
    let uuid = sys.sample_uuid_for(first);
    // after the first submission the sample is known, under `uuid`
    if sys.store.knows_sha512(sha) {
        let k = choose|k: int| 0 <= k < n && (#[trigger] sys.store.samples[k]).sha512 == sha;
        assert(one.store.samples[k].sha512 == sha);
        lemma_sample_lookup(sys.store, k);
        assert(one.store.samples_unique());
        lemma_sample_lookup(one.store, k);
    } else {
        assert(one.store.samples[n] == sample_of(uuid, first.data));
        assert(one.store.samples_unique()) by {
            assert forall|i: int, j: int| 0 <= i < j < one.store.samples.len() implies {
                &&& (#[trigger] one.store.samples[i]).uuid != (#[trigger] one.store.samples[j]).uuid
                &&& one.store.samples[i].md5 != one.store.samples[j].md5
                &&& one.store.samples[i].sha1 != one.store.samples[j].sha1
                &&& one.store.samples[i].sha256 != one.store.samples[j].sha256
                &&& one.store.samples[i].sha512 != one.store.samples[j].sha512
            } by {
                assert(one.store.samples[i] == sys.store.samples[i]);
                if j < n {
                    assert(one.store.samples[j] == sys.store.samples[j]);
                }
            }
        }
        lemma_sample_lookup(one.store, n);
    }
    assert(one.store.knows_sha512(sha));
    assert(one.sample_uuid_for(second) == uuid);
    assert(two.store.samples_unique());
}

/// The admission of a job keeps what holds of the service: the running
/// set never holds more than `max_running` jobs, and the store is not
/// written, so that `running` is no stored status.
pub proof fn law_admission_keeps_invariant(sys: System, uuid: u128)
    requires
        sys.inv(),
    ensures
        sys.attach(uuid).inv(),
        sys.files_match() ==> sys.attach(uuid).files_match(),
        sys.attach(uuid).store == sys.store,
        sys.attach(uuid).running.len() <= sys.max_running,
{
}

/// Reaping a finished job keeps what holds of the service: the row gets
/// the terminal status of the outcome, never `running`; the job leaves
/// the running set; the number of queued rows does not grow.
///
/// The row refers to a stored sample.
pub proof fn law_reaping_keeps_invariant(sys: System, row: AnalysisView, outcome: JobOutcome)
    requires
        sys.inv(),
        row.status == status_text(ended_status(outcome)),
        sys.store.has_sample(row.sample_uuid),
    ensures
        sys.reap(row).inv(),
        sys.files_match() ==> sys.reap(row).files_match(),
        !sys.reap(row).running.contains(row.uuid),
        count_queued(sys.reap(row).store.analyses) <= count_queued(sys.store.analyses),
        sys.reap(row).store.analyses.len() == sys.store.analyses.len(),
{
    lemma_status_texts(ended_status(outcome));
    lemma_update_keeps_store(sys.store, row);
    if sys.store.has_analysis(row.uuid) {
        lemma_count_queued_update(sys.store.analyses, sys.store.place_of(row.uuid), row);
    }
}

/// Queueing an analysis again in place keeps what holds of the service,
/// and keeps its identifier and the number of rows.
///
/// The row that is replaced is not queued, the new row refers to a stored
/// sample, and the number of queued rows that the admission check saw is
/// at most one behind.
pub proof fn law_requeue_keeps_invariant(sys: System, row: AnalysisView, observed_queued: int)
    requires
        sys.inv(),
        row.status == status_text(admitted_status(observed_queued, sys.max_queue)),
        sys.store.has_sample(row.sample_uuid),
        observed_queued <= count_queued(sys.store.analyses) <= observed_queued + 1,
        sys.store.has_analysis(row.uuid),
        !is_queued(sys.store.analyses[sys.store.place_of(row.uuid)]),
    ensures
        sys.requeue(row).inv(),
        sys.files_match() ==> sys.requeue(row).files_match(),
        sys.requeue(row).store.analyses.len() == sys.store.analyses.len(),
        sys.requeue(row).store.has_analysis(row.uuid),
        sys.requeue(row).store.analyses[sys.store.place_of(row.uuid)] == row,
{
    lemma_status_texts(admitted_status(observed_queued, sys.max_queue));
    lemma_update_keeps_store(sys.store, row);
    lemma_count_queued_update(sys.store.analyses, sys.store.place_of(row.uuid), row);
    assert(sys.requeue(row).store.analyses[sys.store.place_of(row.uuid)].uuid == row.uuid);
}

/// A restart keeps what holds of the service and empties the running
/// set: the store is as it was.
pub proof fn law_restart_keeps_invariant(sys: System)
    requires
        sys.inv(),
    ensures
        sys.restart().inv(),
        sys.files_match() ==> sys.restart().files_match(),
        sys.restart().store == sys.store,
        sys.restart().running.len() == 0,
{
}

/// Replacing the row of an analysis by one with a storable status and a
/// stored sample keeps the constraints of the store.
pub proof fn lemma_update_keeps_store(store: Store, row: AnalysisView)
    requires
        store.wf(),
        stored_status(row.status),
        store.has_sample(row.sample_uuid),
    ensures
        store.updated(row).wf(),
        store.updated(row).samples == store.samples,
        store.updated(row).analyses.len() == store.analyses.len(),
{
    if store.has_analysis(row.uuid) {
        let at = store.place_of(row.uuid);
        let after = store.updated(row);
        assert forall|i: int, j: int| 0 <= i < j < after.analyses.len() implies (
        #[trigger] after.analyses[i]).uuid != (#[trigger] after.analyses[j]).uuid by {
            assert(after.analyses[i].uuid == store.analyses[i].uuid);
            assert(after.analyses[j].uuid == store.analyses[j].uuid);
        }
        assert forall|i: int| 0 <= i < after.analyses.len() implies after.has_sample(
            (#[trigger] after.analyses[i]).sample_uuid,
        ) by {
            assert(after.samples == store.samples);
            if i != at {
                assert(after.analyses[i] == store.analyses[i]);
                assert(store.has_sample(store.analyses[i].sample_uuid));
            } else {
                assert(after.analyses[i] == row);
            }
            let k = choose|k: int|
                0 <= k < store.samples.len() && (#[trigger] store.samples[k]).uuid
                    == after.analyses[i].sample_uuid;
            assert(after.samples[k].uuid == after.analyses[i].sample_uuid);
        }
        assert forall|i: int| 0 <= i < after.analyses.len() implies stored_status(
            (#[trigger] after.analyses[i]).status,
        ) by {
            if i != at {
                assert(after.analyses[i] == store.analyses[i]);
            }
        }
    }
}

/// Running a stored analysis again keeps what holds of the service. An
/// `unqueued` or `failed` analysis keeps its identifier and its row's
/// place, and no row is added; any other analysis stays as it is, and one
/// row is added under the fresh identifier, which differs from every
/// identifier in the store.
///
/// `found` is the stored row at `at` and `status` its status; the fresh
/// identifier is not in use; the number of queued rows that the admission
/// check saw is at most one behind.
pub proof fn law_rerun_identifiers(
    sys: System,
    at: int,
    status: AnalysisStatus,
    fresh: u128,
    sandbox: Seq<char>,
    client_ip: Seq<char>,
    observed_queued: int,
    now: AnalysisDate,
)
    requires
        sys.inv(),
        0 <= at < sys.store.analyses.len(),
        status_of_text(sys.store.analyses[at].status) == Some(status),
        !sys.store.has_analysis(fresh),
        observed_queued <= count_queued(sys.store.analyses) <= observed_queued + 1,
    ensures
        ({
            let found = sys.store.analyses[at];
            let after = sys.rerun(found, status, fresh, sandbox, client_ip, observed_queued, now);
            &&& after.inv()
            &&& sys.files_match() ==> after.files_match()
            &&& requeued_in_place(status) ==> {
                &&& after.store.analyses.len() == sys.store.analyses.len()
                &&& after.store.analyses[at].uuid == found.uuid
                &&& forall|i: int|
                    0 <= i < sys.store.analyses.len() ==> (#[trigger] after.store.analyses[i]).uuid
                        == sys.store.analyses[i].uuid
            }
            &&& !requeued_in_place(status) ==> {
                &&& after.store.analyses == sys.store.analyses.push(
                    sys.rerun_row(found, status, fresh, sandbox, client_ip, observed_queued, now),
                )
                &&& after.store.analyses.last().uuid == fresh
                &&& fresh != found.uuid
                &&& after.store.analyses[at] == found
            }
        }),
{
    let found = sys.store.analyses[at];
    let row = sys.rerun_row(found, status, fresh, sandbox, client_ip, observed_queued, now);
    let after = sys.rerun(found, status, fresh, sandbox, client_ip, observed_queued, now);
    lemma_status_texts(admitted_status(observed_queued, sys.max_queue));
    lemma_status_texts(status);
    lemma_status_text_round_trip(status);
    assert(sys.store.has_analysis(found.uuid));
    assert(sys.store.has_sample(found.sample_uuid));
    assert(sys.store.place_of(found.uuid) == at);
    if requeued_in_place(status) {
        assert(!is_queued(found)) by {
            if is_queued(found) {
                lemma_status_text_round_trip(AnalysisStatus::queued);
            }
        }
        law_requeue_keeps_invariant(sys, row, observed_queued);
        assert forall|i: int| 0 <= i < sys.store.analyses.len() implies (
        #[trigger] after.store.analyses[i]).uuid == sys.store.analyses[i].uuid by {
            if i != at {
                assert(after.store.analyses[i] == sys.store.analyses[i]);
            }
        }
    } else {
        lemma_count_queued_push(sys.store.analyses, row);
        assert(after.store.analyses_unique()) by {
            assert forall|i: int, j: int| 0 <= i < j < after.store.analyses.len() implies (
            #[trigger] after.store.analyses[i]).uuid != (#[trigger] after.store.analyses[j]).uuid by {
                assert(after.store.analyses[i] == sys.store.analyses[i]);
                if j < sys.store.analyses.len() {
                    assert(after.store.analyses[j] == sys.store.analyses[j]);
                }
            }
        }
        assert(after.store.references_hold()) by {
            assert forall|i: int| 0 <= i < after.store.analyses.len() implies after.store.has_sample(
                (#[trigger] after.store.analyses[i]).sample_uuid,
            ) by {
                assert(after.store.samples == sys.store.samples);
                if i < sys.store.analyses.len() {
                    assert(after.store.analyses[i] == sys.store.analyses[i]);
                    assert(sys.store.has_sample(sys.store.analyses[i].sample_uuid));
                } else {
                    assert(after.store.analyses[i] == row);
                    assert(sys.store.has_sample(found.sample_uuid));
                }
                let k = choose|k: int|
                    0 <= k < sys.store.samples.len() && (#[trigger] sys.store.samples[k]).uuid
                        == after.store.analyses[i].sample_uuid;
                assert(after.store.samples[k].uuid == after.store.analyses[i].sample_uuid);
            }
        }
        assert(after.store.statuses_stored()) by {
            assert forall|i: int| 0 <= i < after.store.analyses.len() implies stored_status(
                (#[trigger] after.store.analyses[i]).status,
            ) by {
                if i < sys.store.analyses.len() {
                    assert(after.store.analyses[i] == sys.store.analyses[i]);
                }
            }
        }
        assert(after.files_hold_sha512());
        assert(after.store.samples == sys.store.samples && after.files == sys.files);
    }
}

/// At any instant the running set of an orchestrator holds no more than
/// `max_running` analyses.
pub proof fn law_running_set_within_cap<D, H>(analyzer: Analyzer<D, H>)
    requires
        analyzer.wf(),
    ensures
        analyzer.running_ids().to_set().finite(),
        analyzer.running_ids().to_set().len() <= analyzer.settings().max_running,
        forall|uuid: u128| analyzer.running_ids().to_set().contains(uuid) <==> analyzer.runs(uuid),
{
    analyzer.running_ids().unique_seq_to_set();
}

/// After a restart the running set is empty, so that every row that is
/// stored as `queued` may be admitted again: an analysis that was running
/// when the process ended is among them.
pub proof fn law_restart_readmits<D, H>(analyzer: Analyzer<D, H>, row: AnalysisRow)
    requires
        analyzer.jobs().len() == 0,
        row.status@ == "queued"@,
    ensures
        analyzer.is_candidate(row),
{
}

/// The row of a job under a status and a date holds what the job was
/// made of.
pub proof fn lemma_row_of_job(
    job: Analysis,
    c: &Config,
    analysis_uuid: u128,
    sandbox: Seq<char>,
    sample_uuid: u128,
    submission_name: Option<Seq<char>>,
    client_ip: Seq<char>,
    status: AnalysisStatus,
    now: AnalysisDate,
)
    requires
        job.describes(c, analysis_uuid, sandbox, sample_uuid, submission_name, client_ip),
    ensures
        job_row(job, status, now) == (AnalysisView {
            uuid: analysis_uuid,
            sample_uuid,
            sandbox_name: sandbox,
            submission_name,
            date: now,
            src_ip: client_ip,
            status: status_text(status),
        }),
{
}

/// The sample row that is made from the metadata of a content holds the
/// digests of that content.
pub proof fn lemma_row_of_metadata(uuid: u128, metadata: Metadata, data: Seq<u8>)
    requires
        metadata.describes(data),
    ensures
        (SampleView {
            uuid,
            md5: metadata.md5@,
            sha1: metadata.sha1@,
            sha256: metadata.sha256@,
            sha512: metadata.sha512@,
        }) == sample_of(uuid, data),
{
}

} // verus!
