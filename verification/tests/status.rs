use sandbox_ui::status::admission_status;
use sandbox_ui::status::is_queue_full;
use sandbox_ui::status::reruns_in_place;
use sandbox_ui::status::terminal_status;
use sandbox_ui::status::AnalysisStatus;
use sandbox_ui::status::JobOutcome;

const ALL: [AnalysisStatus; 5] = [
    AnalysisStatus::unqueued,
    AnalysisStatus::queued,
    AnalysisStatus::running,
    AnalysisStatus::terminated,
    AnalysisStatus::failed,
];

#[test]
fn status_texts_are_the_variant_names() {
    assert_eq!(AnalysisStatus::unqueued.as_str(), "unqueued");
    assert_eq!(AnalysisStatus::queued.as_str(), "queued");
    assert_eq!(AnalysisStatus::running.as_str(), "running");
    assert_eq!(AnalysisStatus::terminated.as_str(), "terminated");
    assert_eq!(AnalysisStatus::failed.as_str(), "failed");
    assert_eq!(AnalysisStatus::failed.to_string(), String::from("failed"));
}

#[test]
fn status_text_round_trip() {
    for s in ALL {
        assert_eq!(AnalysisStatus::from_str(s.as_str()), Some(s));
    }
}

#[test]
fn status_from_unknown_text_is_none() {
    assert_eq!(AnalysisStatus::from_str("Queued"), None);
    assert_eq!(AnalysisStatus::from_str(""), None);
    assert_eq!(AnalysisStatus::from_str("queued "), None);
    assert_eq!(AnalysisStatus::from_str("done"), None);
}

#[test]
fn admission_below_the_cap_queues() {
    assert_eq!(admission_status(0, 8), AnalysisStatus::queued);
    assert_eq!(admission_status(7, 8), AnalysisStatus::queued);
    assert!(!is_queue_full(7, 8));
}

#[test]
fn admission_at_the_cap_does_not_queue() {
    assert_eq!(admission_status(8, 8), AnalysisStatus::unqueued);
    assert_eq!(admission_status(9, 8), AnalysisStatus::unqueued);
    assert_eq!(admission_status(0, 0), AnalysisStatus::unqueued);
    assert!(is_queue_full(8, 8));
    assert!(is_queue_full(0, 0));
}

#[test]
fn admission_with_counts_beyond_the_machine_word() {
    assert_eq!(admission_status(u64::MAX, usize::MAX), AnalysisStatus::unqueued);
    assert_eq!(admission_status(u64::MAX, 3), AnalysisStatus::unqueued);
}

#[test]
fn a_job_ends_terminated_on_success_and_failed_otherwise() {
    assert_eq!(terminal_status(JobOutcome::Succeeded), AnalysisStatus::terminated);
    assert_eq!(terminal_status(JobOutcome::Failed), AnalysisStatus::failed);
    assert_eq!(terminal_status(JobOutcome::Aborted), AnalysisStatus::failed);
}

#[test]
fn no_written_status_is_running() {
    for count in 0..4u64 {
        assert_ne!(admission_status(count, 2), AnalysisStatus::running);
    }
    for o in [JobOutcome::Succeeded, JobOutcome::Failed, JobOutcome::Aborted] {
        assert_ne!(terminal_status(o), AnalysisStatus::running);
    }
}

#[test]
fn only_unqueued_and_failed_rerun_in_place() {
    assert!(reruns_in_place(AnalysisStatus::unqueued));
    assert!(reruns_in_place(AnalysisStatus::failed));
    assert!(!reruns_in_place(AnalysisStatus::queued));
    assert!(!reruns_in_place(AnalysisStatus::running));
    assert!(!reruns_in_place(AnalysisStatus::terminated));
}
