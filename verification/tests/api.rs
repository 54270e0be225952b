use sandbox_ui::analyzer::Analysis as Job;
use sandbox_ui::analyzer::Analyzer;
use sandbox_ui::api::artifact_path;
use sandbox_ui::api::artifact_path_of;
use sandbox_ui::api::requested_uuid;
use sandbox_ui::api::rerun;
use sandbox_ui::api::rerun_with;
use sandbox_ui::api::search_window;
use sandbox_ui::api::Analysis;
use sandbox_ui::api::ApiError;
use sandbox_ui::api::Artifact;
use sandbox_ui::api::Ingress;
use sandbox_ui::api::Rerun;
use sandbox_ui::config::Config;
use sandbox_ui::config::SandboxEntry;
use sandbox_ui::hasher::Metadata;
use sandbox_ui::status::AnalysisStatus;
use sandbox_ui::store::AnalysisRow;
use sandbox_ui::store::SampleRow;
use sandbox_ui::time::AnalysisDate;

const A1: u128 = 0x11111111_1111_4111_8111_111111111111;
const A2: u128 = 0x22222222_2222_4222_8222_222222222222;
const S1: u128 = 0xaaaaaaaa_aaaa_4aaa_8aaa_aaaaaaaaaaaa;
const S2: u128 = 0xbbbbbbbb_bbbb_4bbb_8bbb_bbbbbbbbbbbb;
const A1_TEXT: &str = "11111111-1111-4111-8111-111111111111";

fn config() -> Config {
    let mut c = Config::default();
    c.data_dir = String::from("/data");
    c.default_sandbox_name = String::from("debian");
    c.sandboxes_config = vec![
        SandboxEntry { name: String::from("ubuntu"), path: String::from("/etc/sbx/ubuntu.yaml") },
        SandboxEntry { name: String::from("debian"), path: String::from("/etc/sbx/debian.yaml") },
    ];
    c
}

fn row(uuid: u128, status: &str) -> AnalysisRow {
    AnalysisRow {
        uuid,
        sample_uuid: S1,
        sandbox_name: String::from("ubuntu"),
        submission_name: Some(String::from("sample.bin")),
        date: AnalysisDate { secs: 10, nanos: 0 },
        src_ip: String::from("10.0.0.1"),
        status: status.to_string(),
    }
}

fn sample(uuid: u128, content: &[u8]) -> SampleRow {
    SampleRow::of_metadata(uuid, &Metadata::from_bytes(content))
}

#[test]
fn the_limit_defaults_to_25_and_is_capped_at_100() {
    assert_eq!(search_window(None, None), (25, 0));
    assert_eq!(search_window(Some(0), None), (0, 0));
    assert_eq!(search_window(Some(1), Some(3)), (1, 3));
    assert_eq!(search_window(Some(100), None), (100, 0));
    assert_eq!(search_window(Some(101), None), (100, 0));
    assert_eq!(search_window(Some(i64::MAX), Some(u64::MAX)), (100, u64::MAX));
}

#[test]
fn a_negative_limit_gives_the_default() {
    assert_eq!(search_window(Some(-1), None), (25, 0));
    assert_eq!(search_window(Some(i64::MIN), Some(7)), (25, 7));
}

#[test]
fn a_row_is_shown_with_its_status_and_its_sample() {
    let s = sample(S1, b"hello");
    let a = Analysis::from((row(A1, "terminated"), vec![s.clone()])).unwrap();
    assert_eq!(a.uuid, A1);
    assert_eq!(a.date, AnalysisDate { secs: 10, nanos: 0 });
    assert_eq!(a.submission_name, Some(String::from("sample.bin")));
    assert_eq!(a.status, AnalysisStatus::terminated);
    assert_eq!(a.sample, Some(s));
}

#[test]
fn a_row_without_sample_rows_is_shown_without_a_sample() {
    let a = Analysis::from((row(A1, "queued"), vec![])).unwrap();
    assert_eq!(a.sample, None);
    assert_eq!(a.status, AnalysisStatus::queued);
}

#[test]
fn the_last_of_several_sample_rows_is_shown() {
    let a = Analysis::from((row(A1, "failed"), vec![sample(S1, b"a"), sample(S2, b"b")])).unwrap();
    assert_eq!(a.sample, Some(sample(S2, b"b")));
}

#[test]
fn a_row_with_an_unknown_status_is_not_shown() {
    assert_eq!(
        Analysis::from((row(A1, "exploded"), vec![])),
        Err(ApiError::Msg(String::from("failed to convert analysis status from string")))
    );
}

#[test]
fn a_running_analysis_is_shown_as_running() {
    let mut analyzer: Analyzer<(), u8> = Analyzer::from_config_and_db(config(), ());
    let job = Job::with_uuid(analyzer.config(), A1, None, S1, None, String::from("::1"));
    assert_eq!(analyzer.register(job, 0), None);
    let shown = Analysis::from((row(A1, "queued"), vec![])).unwrap().shown(&analyzer);
    assert_eq!(shown.status, AnalysisStatus::running);
    assert_eq!(shown.uuid, A1);
    let other = Analysis::from((row(A2, "queued"), vec![])).unwrap().shown(&analyzer);
    assert_eq!(other.status, AnalysisStatus::queued);
    let done = Analysis::from((row(A2, "terminated"), vec![])).unwrap().shown(&analyzer);
    assert_eq!(done.status, AnalysisStatus::terminated);
}

#[test]
fn a_sample_is_found_by_any_of_its_digests() {
    let s = sample(S1, b"hello");
    assert!(s.has_digest("5d41402abc4b2a76b9719d911017c592"));
    assert!(s.has_digest("aaf4c61ddcc5e8a2dabede0f3b482cd9aea9434d"));
    assert!(s.has_digest("2cf24dba5fb0a30e26e83b2ac5b9e29e1b161e5c1fa7425e73043362938b9824"));
    assert!(s.has_digest(&s.sha512.clone()));
    assert!(!s.has_digest("5D41402ABC4B2A76B9719D911017C592"));
    assert!(!s.has_digest(""));
    assert!(!s.has_digest("d41d8cd98f00b204e9800998ecf8427e"));
}

#[test]
fn the_paths_of_the_artifacts() {
    let c = config();
    let dir = format!("/data/analyses/{A1_TEXT}");
    assert_eq!(artifact_path_of(&c, Artifact::Metadata, A1), format!("{dir}/metadata.json"));
    assert_eq!(artifact_path_of(&c, Artifact::Sandbox, A1), format!("{dir}/sandbox.json"));
    assert_eq!(artifact_path_of(&c, Artifact::Pcap, A1), format!("{dir}/analysis/dump.pcap"));
    assert_eq!(artifact_path_of(&c, Artifact::Logs, A1), format!("{dir}/analysis/kunai.jsonl.gz"));
    assert_eq!(artifact_path_of(&c, Artifact::Graph, A1), format!("{dir}/analysis/graph.svg"));
    assert_eq!(artifact_path_of(&c, Artifact::MispEvent, A1), format!("{dir}/analysis/misp-event.json"));
    assert_eq!(artifact_path(&c, Artifact::Pcap, A1_TEXT), Some(format!("{dir}/analysis/dump.pcap")));
    assert_eq!(artifact_path(&c, Artifact::Pcap, "../../etc/passwd"), None);
    assert_eq!(artifact_path(&c, Artifact::Metadata, ""), None);
}

#[test]
fn a_requested_identifier_is_read_in_the_forms_of_the_parser() {
    assert_eq!(requested_uuid(A1_TEXT), Ok(A1));
    assert_eq!(requested_uuid("11111111111141118111111111111111"), Ok(A1));
    assert_eq!(requested_uuid("11111111-1111-4111-8111-11111111111A"), Ok(A1 - 0x11 + 0x1a));
    assert_eq!(requested_uuid("{11111111-1111-4111-8111-111111111111}"), Ok(A1));
    assert_eq!(requested_uuid("urn:uuid:11111111-1111-4111-8111-111111111111"), Ok(A1));
    assert_eq!(requested_uuid("00000000-0000-0000-0000-000000000000"), Ok(0));
}

#[test]
fn a_text_that_is_no_identifier_is_an_error() {
    for text in ["", "abc", "11111111-1111-4111-8111-11111111111", "11111111-1111-4111-8111-11111111111g"] {
        assert_eq!(requested_uuid(text), Err(ApiError::Msg(String::from("cannot parse uuid"))));
    }
}

#[test]
fn api_error_texts() {
    assert_eq!(ApiError::msg("gone"), ApiError::Msg(String::from("gone")));
    assert_eq!(ApiError::msg("gone").to_string(), "gone");
}

#[test]
fn a_new_sample_gets_the_fresh_identifier() {
    let c = config();
    let g = Ingress::begin_with(
        &c,
        None,
        S2,
        A1,
        Some(String::from("ubuntu")),
        Some(String::from("evil.bin")),
        String::from("192.0.2.7"),
    );
    assert!(!g.sample_in_db);
    assert_eq!(g.analysis.sample_uuid, S2);
    assert_eq!(g.analysis.analysis_uuid, A1);
    assert_eq!(g.analysis.sandbox, "ubuntu");
    assert_eq!(g.analysis.submission_name, Some(String::from("evil.bin")));
    assert_eq!(g.analysis.client_ip, "192.0.2.7");
    assert_eq!(g.analysis.sample_path, c.sample_path(S2));
    assert_eq!(g.analysis.analysis_dir, c.analysis_dir(A1));
    let m = Metadata::from_bytes(b"hello");
    assert_eq!(g.sample_row(&m), Some(sample(S2, b"hello")));
}

#[test]
fn a_known_sample_keeps_its_identifier() {
    let c = config();
    let known = sample(S1, b"hello");
    let g = Ingress::begin_with(&c, Some(&known), S2, A1, Some(String::from("solaris")), None, String::from("::1"));
    assert!(g.sample_in_db);
    assert_eq!(g.analysis.sample_uuid, S1);
    assert_eq!(g.analysis.sample_path, c.sample_path(S1));
    assert_eq!(g.analysis.sandbox, "debian");
    assert_eq!(g.sample_row(&Metadata::from_bytes(b"hello")), None);
}

#[test]
fn submissions_draw_fresh_identifiers() {
    let c = config();
    let a = Ingress::begin(&c, None, None, None, String::from("::1"));
    let b = Ingress::begin(&c, None, None, None, String::from("::1"));
    assert_ne!(a.analysis.analysis_uuid, b.analysis.analysis_uuid);
    assert_ne!(a.analysis.sample_uuid, b.analysis.sample_uuid);
    assert_ne!(a.analysis.sample_uuid, a.analysis.analysis_uuid);
    assert_eq!(a.analysis.sandbox, "debian");
    let known = sample(S1, b"hello");
    let k = Ingress::begin(&c, Some(&known), None, None, String::from("::1"));
    assert_eq!(k.analysis.sample_uuid, S1);
    assert!(k.sample_in_db);
}

#[test]
fn a_lost_race_goes_on_with_the_stored_sample() {
    let c = config();
    let g = Ingress::begin_with(&c, None, S2, A1, None, Some(String::from("n")), String::from("::1"));
    let winner = sample(S1, b"hello");
    let g = g.adopt(&c, &winner);
    assert!(g.sample_in_db);
    assert_eq!(g.analysis.sample_uuid, S1);
    assert_eq!(g.analysis.sample_path, c.sample_path(S1));
    assert_eq!(g.analysis.analysis_uuid, A1);
    assert_eq!(g.analysis.analysis_dir, c.analysis_dir(A1));
    assert_eq!(g.analysis.submission_name, Some(String::from("n")));
    assert_eq!(g.sample_row(&Metadata::from_bytes(b"hello")), None);
}

#[test]
fn unqueued_and_failed_analyses_are_rerun_under_their_identifier() {
    let c = config();
    for status in ["unqueued", "failed"] {
        let plan = rerun_with(&c, row(A1, status), A2, Some(String::from("debian")), String::from("::1")).unwrap();
        match plan {
            Rerun::InPlace(job) => {
                assert_eq!(job.analysis_uuid, A1);
                assert_eq!(job.sample_uuid, S1);
                assert_eq!(job.sandbox, "ubuntu");
                assert_eq!(job.client_ip, "10.0.0.1");
                assert_eq!(job.submission_name, Some(String::from("sample.bin")));
                assert_eq!(job.analysis_dir, c.analysis_dir(A1));
            }
            other => panic!("unexpected: {other:?}"),
        }
    }
}

#[test]
fn other_analyses_are_rerun_under_a_new_identifier() {
    let c = config();
    for status in ["queued", "running", "terminated"] {
        let plan = rerun_with(&c, row(A1, status), A2, None, String::from("::1")).unwrap();
        match plan {
            Rerun::Fresh(job) => {
                assert_eq!(job.analysis_uuid, A2);
                assert_eq!(job.sample_uuid, S1);
                assert_eq!(job.sandbox, "ubuntu");
                assert_eq!(job.client_ip, "::1");
                assert_eq!(job.submission_name, Some(String::from("sample.bin")));
                assert_eq!(job.analysis_dir, c.analysis_dir(A2));
                assert_eq!(job.sample_path, c.sample_path(S1));
            }
            other => panic!("unexpected: {other:?}"),
        }
    }
}

#[test]
fn the_caller_may_name_another_sandbox_for_a_new_run() {
    let c = config();
    let plan = rerun_with(&c, row(A1, "terminated"), A2, Some(String::from("debian")), String::from("::1")).unwrap();
    assert!(matches!(plan, Rerun::Fresh(ref job) if job.sandbox == "debian"));
    let plan = rerun_with(&c, row(A1, "terminated"), A2, Some(String::from("beos")), String::from("::1")).unwrap();
    assert!(matches!(plan, Rerun::Fresh(ref job) if job.sandbox == "debian"));
}

#[test]
fn a_new_run_inherits_the_sandbox_name_as_it_is() {
    let c = config();
    for status in ["queued", "running", "terminated"] {
        let mut gone = row(A1, status);
        gone.sandbox_name = String::from("gone");
        let plan = rerun_with(&c, gone, A2, None, String::from("::1")).unwrap();
        assert!(matches!(plan, Rerun::Fresh(ref job) if job.sandbox == "gone"));
    }
    let plan = rerun_with(&c, row(A1, "terminated"), A2, None, String::from("::1")).unwrap();
    assert!(matches!(plan, Rerun::Fresh(ref job) if job.sandbox == "ubuntu"));
    let mut gone = row(A1, "queued");
    gone.sandbox_name = String::from("gone");
    match rerun(&c, Some(gone), None, String::from("::1")) {
        Ok(Some(Rerun::Fresh(job))) => assert_eq!(job.sandbox, "gone"),
        other => panic!("unexpected: {other:?}"),
    }
    let mut gone = row(A1, "queued");
    gone.sandbox_name = String::from("gone");
    match rerun(&c, Some(gone), Some(String::from("ubuntu")), String::from("::1")) {
        Ok(Some(Rerun::Fresh(job))) => assert_eq!(job.sandbox, "ubuntu"),
        other => panic!("unexpected: {other:?}"),
    }
}

#[test]
fn an_inserted_sample_row_changes_nothing() {
    let c = config();
    let g = Ingress::begin_with(&c, None, S2, A1, None, Some(String::from("n")), String::from("::1"));
    let same = Ingress::begin_with(&c, None, S2, A1, None, Some(String::from("n")), String::from("::1"));
    assert_eq!(g.after_insert(&c, true, None), Ok(same));
    let g = Ingress::begin_with(&c, None, S2, A1, None, None, String::from("::1"));
    let same = Ingress::begin_with(&c, None, S2, A1, None, None, String::from("::1"));
    let other = sample(S1, b"hello");
    assert_eq!(g.after_insert(&c, true, Some(&other)), Ok(same));
}

#[test]
fn a_refused_sample_row_goes_on_with_the_stored_sample() {
    let c = config();
    let g = Ingress::begin_with(&c, None, S2, A1, None, Some(String::from("n")), String::from("::1"));
    let winner = sample(S1, b"hello");
    let g = g.after_insert(&c, false, Some(&winner)).unwrap();
    assert!(g.sample_in_db);
    assert_eq!(g.analysis.sample_uuid, S1);
    assert_eq!(g.analysis.sample_path, c.sample_path(S1));
    assert_eq!(g.analysis.analysis_uuid, A1);
    assert_eq!(g.analysis.submission_name, Some(String::from("n")));
    assert_eq!(g.sample_row(&Metadata::from_bytes(b"hello")), None);
}

#[test]
fn a_refused_sample_row_without_a_stored_sample_is_an_error() {
    let c = config();
    let g = Ingress::begin_with(&c, None, S2, A1, None, None, String::from("::1"));
    assert_eq!(
        g.after_insert(&c, false, None),
        Err(ApiError::Msg(String::from("failed to insert sample into database")))
    );
}

#[test]
fn a_rerun_of_a_row_with_an_unknown_status_is_an_error() {
    let c = config();
    assert_eq!(
        rerun_with(&c, row(A1, "melted"), A2, None, String::from("::1")),
        Err(ApiError::Msg(String::from("failed to convert analysis status from string")))
    );
    assert_eq!(
        rerun(&c, Some(row(A1, "")), None, String::from("::1")),
        Err(ApiError::Msg(String::from("failed to convert analysis status from string")))
    );
}

#[test]
fn a_rerun_of_an_unknown_analysis_is_nothing() {
    assert_eq!(rerun(&config(), None, None, String::from("::1")), Ok(None));
}

#[test]
fn a_rerun_draws_a_fresh_identifier_where_it_needs_one() {
    let c = config();
    match rerun(&c, Some(row(A1, "terminated")), None, String::from("::1")) {
        Ok(Some(Rerun::Fresh(job))) => {
            assert_ne!(job.analysis_uuid, A1);
            assert_eq!(job.sample_uuid, S1);
        }
        other => panic!("unexpected: {other:?}"),
    }
    match rerun(&c, Some(row(A1, "failed")), None, String::from("::1")) {
        Ok(Some(Rerun::InPlace(job))) => assert_eq!(job.analysis_uuid, A1),
        other => panic!("unexpected: {other:?}"),
    }
}
