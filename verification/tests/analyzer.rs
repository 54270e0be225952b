use sandbox_ui::analyzer::build_executor_args;
use sandbox_ui::analyzer::job_result;
use sandbox_ui::analyzer::make_row;
use sandbox_ui::analyzer::Analysis;
use sandbox_ui::analyzer::Analyzer;
use sandbox_ui::analyzer::AnalyzerError;
use sandbox_ui::config::Config;
use sandbox_ui::config::SandboxEntry;
use sandbox_ui::hasher::Metadata;
use sandbox_ui::status::AnalysisStatus;
use sandbox_ui::status::JobOutcome;
use sandbox_ui::store::AnalysisRow;
use sandbox_ui::time::AnalysisDate;

const A1: u128 = 0x11111111_1111_4111_8111_111111111111;
const A2: u128 = 0x22222222_2222_4222_8222_222222222222;
const A3: u128 = 0x33333333_3333_4333_8333_333333333333;
const S1: u128 = 0xaaaaaaaa_aaaa_4aaa_8aaa_aaaaaaaaaaaa;

fn config(max_queue: usize, max_running: usize) -> Config {
    let mut c = Config::default();
    c.data_dir = String::from("/data");
    c.kunai_sandbox_exe = String::from("/usr/bin/kunai-sandbox");
    c.default_sandbox_name = String::from("debian");
    c.max_queue = max_queue;
    c.max_running = max_running;
    c.sandboxes_config = vec![
        SandboxEntry { name: String::from("ubuntu"), path: String::from("/etc/sbx/ubuntu.yaml") },
        SandboxEntry { name: String::from("debian"), path: String::from("/etc/sbx/debian.yaml") },
    ];
    let files: Vec<Result<Vec<u8>, String>> = vec![
        Ok(b"qemu:\n  distribution: Debian\n  arch: x86_64\n  kernel: 6.1.0\n".to_vec()),
        Ok(b"qemu:\n  distribution: Ubuntu\n  arch: aarch64\n  kernel: 5.15.0\n".to_vec()),
    ];
    c.with_catalog(&files).unwrap()
}

fn analyzer(max_queue: usize, max_running: usize) -> Analyzer<&'static str, u32> {
    Analyzer::from_config_and_db(config(max_queue, max_running), "db")
}

fn date(secs: i64) -> AnalysisDate {
    AnalysisDate { secs, nanos: 0 }
}

fn row(uuid: u128, status: &str, secs: i64) -> AnalysisRow {
    AnalysisRow {
        uuid,
        sample_uuid: S1,
        sandbox_name: String::from("ubuntu"),
        submission_name: Some(String::from("sample.bin")),
        date: date(secs),
        src_ip: String::from("10.0.0.1"),
        status: status.to_string(),
    }
}

fn job(c: &Config, uuid: u128) -> Analysis {
    Analysis::with_uuid(
        c,
        uuid,
        Some(String::from("ubuntu")),
        S1,
        Some(String::from("sample.bin")),
        String::from("10.0.0.1"),
    )
}

#[test]
fn a_new_orchestrator_runs_nothing() {
    let a = analyzer(8, 4);
    assert_eq!(a.running_len(), 0);
    assert!(a.running_uuids().is_empty());
    assert!(!a.is_running(&A1));
    assert!(a.has_capacity());
    assert_eq!(*a.db(), "db");
    assert_eq!(a.config().max_queue, 8);
    assert_eq!(a.config().max_running, 4);
    assert_eq!(*a.config(), config(8, 4));
}

#[test]
fn a_job_follows_the_layout() {
    let c = config(8, 4);
    let a = job(&c, A1);
    assert_eq!(a.analysis_uuid, A1);
    assert_eq!(a.sample_uuid, S1);
    assert_eq!(a.sandbox, "ubuntu");
    assert_eq!(a.submission_name, Some(String::from("sample.bin")));
    assert_eq!(a.client_ip, "10.0.0.1");
    assert_eq!(a.metadata, None);
    assert_eq!(a.sample_path, "/data/samples/aaaaaaaa-aaaa-4aaa-8aaa-aaaaaaaaaaaa");
    assert_eq!(a.sample_path(), "/data/samples/aaaaaaaa-aaaa-4aaa-8aaa-aaaaaaaaaaaa");
    assert_eq!(a.analysis_dir, "/data/analyses/11111111-1111-4111-8111-111111111111");
    assert_eq!(
        a.metadata_json_file(),
        "/data/analyses/11111111-1111-4111-8111-111111111111/metadata.json"
    );
    assert_eq!(
        a.sandbox_json_file(),
        "/data/analyses/11111111-1111-4111-8111-111111111111/sandbox.json"
    );
    assert_eq!(a.clone(), a);
}

#[test]
fn the_names_of_the_two_documents() {
    assert_eq!(Analysis::METADATA_FILENAME, "metadata.json");
    assert_eq!(Analysis::SANDBOX_FILENAME, "sandbox.json");
    let c = config(8, 4);
    assert_eq!(c.sample_metadata_json_file(A1), job(&c, A1).metadata_json_file());
    assert_eq!(c.analysis_sandbox_json_file(A1), job(&c, A1).sandbox_json_file());
}

#[test]
fn a_job_in_a_given_sandbox_keeps_the_name_as_it_is() {
    let c = config(8, 4);
    let a = Analysis::in_sandbox(&c, A1, String::from("gone"), S1, None, String::from("::1"));
    assert_eq!(a.sandbox, "gone");
    assert_eq!(a.analysis_uuid, A1);
    assert_eq!(a.sample_uuid, S1);
    assert_eq!(a.analysis_dir, c.analysis_dir(A1));
    assert_eq!(a.sample_path, c.sample_path(S1));
    assert_eq!(a.metadata, None);
}

#[test]
fn an_admission_leaves_the_earlier_entries_as_they_are() {
    let mut a = analyzer(8, 3);
    assert_eq!(a.register(job(&config(8, 3), A1), 41), None);
    assert_eq!(a.take_handle(A1), Some(41));
    assert_eq!(a.register(job(&config(8, 3), A2), 42), None);
    assert_eq!(a.register(job(&config(8, 3), A3), 43), None);
    assert_eq!(a.handle(A1), None);
    assert_eq!(a.handle(A2), Some(&42));
    assert_eq!(a.handle(A3), Some(&43));
    assert_eq!(a.running_uuids(), vec![A1, A2, A3]);
}

#[test]
fn reaping_leaves_the_handles_of_the_others() {
    let mut a = analyzer(8, 3);
    assert_eq!(a.register(job(&config(8, 3), A1), 41), None);
    assert_eq!(a.register(job(&config(8, 3), A2), 42), None);
    assert_eq!(a.register(job(&config(8, 3), A3), 43), None);
    assert!(a.reap(A2, JobOutcome::Succeeded, date(1)).is_some());
    assert_eq!(a.handle(A1), Some(&41));
    assert_eq!(a.handle(A3), Some(&43));
    assert_eq!(a.reap_finished(&vec![(A1, JobOutcome::Failed)], date(2)).len(), 1);
    assert_eq!(a.handle(A3), Some(&43));
    assert_eq!(a.running_uuids(), vec![A3]);
}

#[test]
fn a_job_with_an_unknown_or_absent_sandbox_gets_the_default() {
    let c = config(8, 4);
    let a = Analysis::with_uuid(&c, A1, Some(String::from("windows")), S1, None, String::from("::1"));
    assert_eq!(a.sandbox, "debian");
    assert_eq!(a.submission_name, None);
    let b = Analysis::with_uuid(&c, A1, None, S1, None, String::from("::1"));
    assert_eq!(b.sandbox, "debian");
}

#[test]
fn new_jobs_get_fresh_identifiers() {
    let c = config(8, 4);
    let a = Analysis::new(&c, None, S1, None, String::from("::1"));
    let b = Analysis::new(&c, None, S1, None, String::from("::1"));
    assert_ne!(a.analysis_uuid, b.analysis_uuid);
    assert_eq!(a.sample_uuid, S1);
    assert_eq!(a.sandbox, "debian");
    assert_eq!(a.analysis_dir, c.analysis_dir(a.analysis_uuid));
    assert_eq!(a.sample_path, c.sample_path(S1));
}

#[test]
fn a_job_from_a_row_keeps_the_row() {
    let c = config(8, 4);
    let mut r = row(A2, "failed", 5);
    r.sandbox_name = String::from("gone");
    let a = Analysis::from_model_with_config(r, &c);
    assert_eq!(a.analysis_uuid, A2);
    assert_eq!(a.sample_uuid, S1);
    assert_eq!(a.sandbox, "gone");
    assert_eq!(a.client_ip, "10.0.0.1");
    assert_eq!(a.submission_name, Some(String::from("sample.bin")));
    assert_eq!(a.analysis_dir, c.analysis_dir(A2));
    assert_eq!(a.sample_path, c.sample_path(S1));
    assert_eq!(a.metadata, None);
}

#[test]
fn the_first_metadata_of_a_job_is_kept() {
    let c = config(8, 4);
    let mut a = job(&c, A1);
    let first = a.async_metadata(Metadata::from_bytes(b"hello")).clone();
    assert_eq!(first.submission_name, Some(String::from("sample.bin")));
    assert_eq!(first.magic, None);
    assert_eq!(first.size, 5);
    assert_eq!(first.md5, "5d41402abc4b2a76b9719d911017c592");
    let second = a.async_metadata(Metadata::from_bytes(b"other")).clone();
    assert_eq!(second, first);
    assert_eq!(a.metadata, Some(first));
    assert_eq!(a.analysis_uuid, A1);
}

#[test]
fn the_metadata_of_a_job_carries_its_submission_name() {
    let c = config(8, 4);
    let a = job(&c, A1);
    let mut hashed = Metadata::from_bytes(b"hello");
    hashed.magic = Some(String::from("ELF"));
    hashed.submission_name = Some(String::from("other"));
    let m = Metadata::from_analysis(&a, hashed);
    assert_eq!(m.submission_name, Some(String::from("sample.bin")));
    assert_eq!(m.magic, None);
    assert_eq!(m.sha1, "aaf4c61ddcc5e8a2dabede0f3b482cd9aea9434d");
    assert_eq!(m.size, 5);
}

#[test]
fn a_new_analysis_is_queued_below_the_cap() {
    let a = analyzer(2, 4);
    let j = job(a.config(), A1);
    let (r, queued) = a.queue_new(&j, 1, date(100));
    assert!(queued);
    assert_eq!(
        r,
        AnalysisRow {
            uuid: A1,
            sample_uuid: S1,
            sandbox_name: String::from("ubuntu"),
            submission_name: Some(String::from("sample.bin")),
            date: date(100),
            src_ip: String::from("10.0.0.1"),
            status: String::from("queued"),
        }
    );
}

#[test]
fn a_new_analysis_at_the_cap_is_stored_unqueued() {
    let a = analyzer(2, 4);
    let j = job(a.config(), A1);
    let (r, queued) = a.queue_new(&j, 2, date(100));
    assert!(!queued);
    assert_eq!(r.status, "unqueued");
    assert_eq!(r.uuid, A1);
    let (r, queued) = a.queue_new(&j, 3, date(100));
    assert!(!queued);
    assert_eq!(r.status, "unqueued");
    assert!(a.is_queue_full(2));
    assert!(!a.is_queue_full(1));
}

#[test]
fn an_analysis_is_queued_again_under_the_same_rule() {
    let a = analyzer(1, 4);
    let j = job(a.config(), A1);
    let (r, queued) = a.queue_existing(&j, 0, date(7));
    assert!(queued);
    assert_eq!(r.status, "queued");
    assert_eq!(r.uuid, A1);
    assert_eq!(r.date, date(7));
    let (r, queued) = a.queue_existing(&j, 1, date(8));
    assert!(!queued);
    assert_eq!(r.status, "unqueued");
}

#[test]
fn rows_are_made_from_jobs() {
    let c = config(8, 4);
    let j = job(&c, A3);
    let r = make_row(&j, AnalysisStatus::terminated, date(9));
    assert_eq!(r.status, "terminated");
    assert_eq!(r.uuid, A3);
    assert_eq!(r.sample_uuid, S1);
    assert_eq!(r.date, date(9));
}

#[test]
fn the_newest_queued_row_is_next() {
    let a = analyzer(8, 4);
    let rows = vec![row(A1, "queued", 10), row(A2, "queued", 30), row(A3, "queued", 20)];
    assert_eq!(a.next_queued(&rows), Some(1));
    let job = a.last_queued_not_running(&rows).unwrap();
    assert_eq!(job.analysis_uuid, A2);
    assert_eq!(job.sample_path, a.config().sample_path(S1));
}

#[test]
fn rows_that_are_not_queued_are_passed_over() {
    let a = analyzer(8, 4);
    let rows = vec![
        row(A1, "queued", 10),
        row(A2, "failed", 30),
        row(A3, "unqueued", 40),
        row(4, "terminated", 50),
        row(5, "running", 60),
        row(6, "Queued", 70),
    ];
    assert_eq!(a.next_queued(&rows), Some(0));
    assert_eq!(a.next_queued(&rows[1..].to_vec()), None);
    assert_eq!(a.last_queued_not_running(&rows[1..].to_vec()), None);
    assert_eq!(a.next_queued(&vec![]), None);
}

#[test]
fn among_equally_new_rows_the_first_is_next() {
    let a = analyzer(8, 4);
    let rows = vec![row(A1, "queued", 10), row(A2, "queued", 10), row(A3, "queued", 5)];
    assert_eq!(a.next_queued(&rows), Some(0));
    let mut finer = vec![row(A1, "queued", 10), row(A2, "queued", 10)];
    finer[1].date.nanos = 1;
    assert_eq!(a.next_queued(&finer), Some(1));
}

#[test]
fn running_analyses_are_passed_over() {
    let mut a = analyzer(8, 4);
    let running = job(a.config(), A2);
    assert_eq!(a.register(running, 1), None);
    let rows = vec![row(A1, "queued", 10), row(A2, "queued", 30), row(A3, "queued", 20)];
    assert_eq!(a.next_queued(&rows), Some(2));
    assert_eq!(a.last_queued_not_running(&rows).unwrap().analysis_uuid, A3);
}

#[test]
fn the_executor_arguments() {
    let args = build_executor_args("/etc/sbx/ubuntu.yaml", "/data/analyses/x/analysis", "/data/samples/y");
    assert_eq!(
        args,
        vec![
            "--force",
            "-t",
            "60",
            "--config",
            "/etc/sbx/ubuntu.yaml",
            "--output-dir",
            "/data/analyses/x/analysis",
            "--no-dropped",
            "--tmp",
            "--graph",
            "--misp",
            "--sync-time",
            "--compress",
            "--",
            "/data/samples/y",
        ]
    );
}

#[test]
fn the_plan_of_a_job() {
    let a = analyzer(8, 4);
    let p = a.launch_plan(job(a.config(), A1)).unwrap();
    let dir = "/data/analyses/11111111-1111-4111-8111-111111111111";
    assert_eq!(p.analysis, job(a.config(), A1));
    assert_eq!(p.executor, "/usr/bin/kunai-sandbox");
    assert_eq!(p.sandbox.name, "ubuntu");
    assert_eq!(p.sandbox.distribution, "ubuntu");
    assert_eq!(p.sandbox.arch, "aarch64");
    assert_eq!(p.sandbox.kernel, "5.15.0");
    assert_eq!(p.output_dir, format!("{dir}/analysis"));
    assert_eq!(p.stdout_path, format!("{dir}/sandbox.stdout"));
    assert_eq!(p.stderr_path, format!("{dir}/sandbox.stderr"));
    assert_eq!(
        p.args,
        build_executor_args(
            "/etc/sbx/ubuntu.yaml",
            &format!("{dir}/analysis"),
            "/data/samples/aaaaaaaa-aaaa-4aaa-8aaa-aaaaaaaaaaaa"
        )
    );
}

#[test]
fn a_job_whose_sandbox_is_gone_runs_in_the_default() {
    let a = analyzer(8, 4);
    let mut j = job(a.config(), A1);
    j.sandbox = String::from("gone");
    let p = a.launch_plan(j).unwrap();
    assert_eq!(p.sandbox.name, "debian");
    assert_eq!(p.sandbox.distribution, "debian");
    assert_eq!(p.args[4], "/etc/sbx/debian.yaml");
    assert_eq!(p.analysis.sandbox, "gone");
}

#[test]
fn without_a_usable_configuration_there_is_no_plan() {
    let mut c = Config::default();
    c.default_sandbox_name = String::from("debian");
    let a: Analyzer<(), u32> = Analyzer::from_config_and_db(c, ());
    let j = Analysis::with_uuid(a.config(), A1, None, S1, None, String::from("::1"));
    assert_eq!(
        a.launch_plan(j),
        Err(AnalyzerError::Msg(String::from("sandbox name must be found in config")))
    );
    let mut c = Config::default();
    c.default_sandbox_name = String::from("debian");
    c.sandboxes_config =
        vec![SandboxEntry { name: String::from("debian"), path: String::from("/etc/sbx/debian.yaml") }];
    let a: Analyzer<(), u32> = Analyzer::from_config_and_db(c, ());
    let j = Analysis::with_uuid(a.config(), A1, None, S1, None, String::from("::1"));
    assert_eq!(
        a.launch_plan(j),
        Err(AnalyzerError::Msg(String::from("sandbox name must be found in list")))
    );
}

#[test]
fn one_job_is_planned_where_there_is_room() {
    let a = analyzer(8, 1);
    let rows = vec![row(A1, "queued", 10), row(A2, "queued", 30)];
    let p = a.analyze_next(&rows).unwrap().unwrap();
    assert_eq!(p.analysis.analysis_uuid, A2);
    assert_eq!(p.sandbox.name, "ubuntu");
    assert_eq!(a.analyze_next(&vec![]), Ok(None));
    assert_eq!(a.analyze_next(&vec![row(A1, "failed", 1)]), Ok(None));
}

#[test]
fn nothing_is_planned_where_the_running_set_is_full() {
    let mut a = analyzer(8, 1);
    let running = job(a.config(), A3);
    assert_eq!(a.register(running, 9), None);
    assert!(!a.has_capacity());
    let rows = vec![row(A1, "queued", 10), row(A2, "queued", 30)];
    assert_eq!(a.analyze_next(&rows), Ok(None));
    let none = analyzer(8, 0);
    assert_eq!(none.analyze_next(&rows), Ok(None));
}

#[test]
fn the_running_set_never_exceeds_its_cap() {
    let mut a = analyzer(8, 2);
    assert_eq!(a.register(job(&config(8, 2), A1), 1), None);
    assert_eq!(a.register(job(&config(8, 2), A2), 2), None);
    assert_eq!(a.register(job(&config(8, 2), A3), 3), Some(3));
    assert_eq!(a.running_len(), 2);
    assert_eq!(a.running_uuids(), vec![A1, A2]);
    assert!(a.is_running(&A1));
    assert!(a.is_running(&A2));
    assert!(!a.is_running(&A3));
}

#[test]
fn the_running_set_stays_in_order() {
    let mut a = analyzer(8, 2);
    assert!(a.is_consistent());
    assert_eq!(a.register(job(&config(8, 2), A1), 1), None);
    assert_eq!(a.register(job(&config(8, 2), A1), 2), Some(2));
    assert_eq!(a.register(job(&config(8, 2), A2), 3), None);
    assert_eq!(a.register(job(&config(8, 2), A3), 4), Some(4));
    assert!(a.is_consistent());
    assert_eq!(a.take_handle(A1), Some(1));
    assert!(a.reap(A1, JobOutcome::Succeeded, date(1)).is_some());
    assert!(a.is_consistent());
    assert!(analyzer(8, 0).is_consistent());
}

#[test]
fn an_analysis_is_not_registered_twice() {
    let mut a = analyzer(8, 4);
    assert_eq!(a.register(job(&config(8, 4), A1), 1), None);
    assert_eq!(a.register(job(&config(8, 4), A1), 2), Some(2));
    assert_eq!(a.running_len(), 1);
    assert_eq!(a.handle(A1), Some(&1));
}

#[test]
fn handles_are_taken_once() {
    let mut a = analyzer(8, 4);
    assert_eq!(a.register(job(&config(8, 4), A1), 41), None);
    assert_eq!(a.register(job(&config(8, 4), A2), 42), None);
    assert_eq!(a.handle(A2), Some(&42));
    assert_eq!(a.handle(A3), None);
    assert_eq!(a.take_handle(A2), Some(42));
    assert_eq!(a.take_handle(A2), None);
    assert_eq!(a.handle(A2), None);
    assert_eq!(a.handle(A1), Some(&41));
    assert_eq!(a.take_handle(A3), None);
    assert!(a.is_running(&A2));
    assert_eq!(a.running_uuids(), vec![A1, A2]);
}

#[test]
fn a_finished_job_is_reaped() {
    let mut a = analyzer(8, 4);
    assert_eq!(a.register(job(&config(8, 4), A1), 1), None);
    assert_eq!(a.register(job(&config(8, 4), A2), 2), None);
    let r = a.reap(A1, JobOutcome::Succeeded, date(50)).unwrap();
    assert_eq!(r.uuid, A1);
    assert_eq!(r.status, "terminated");
    assert_eq!(r.date, date(50));
    assert_eq!(r.sample_uuid, S1);
    assert_eq!(r.sandbox_name, "ubuntu");
    assert_eq!(r.src_ip, "10.0.0.1");
    assert!(!a.is_running(&A1));
    assert!(a.is_running(&A2));
    assert_eq!(a.reap(A1, JobOutcome::Succeeded, date(51)), None);
    let r = a.reap(A2, JobOutcome::Failed, date(52)).unwrap();
    assert_eq!(r.status, "failed");
    assert_eq!(a.running_len(), 0);
}

#[test]
fn an_aborted_job_ends_failed() {
    let mut a = analyzer(8, 4);
    assert_eq!(a.register(job(&config(8, 4), A1), 1), None);
    let r = a.reap(A1, JobOutcome::Aborted, date(50)).unwrap();
    assert_eq!(r.status, "failed");
}

#[test]
fn reaping_makes_room() {
    let mut a = analyzer(8, 1);
    assert_eq!(a.register(job(&config(8, 1), A1), 1), None);
    assert_eq!(a.register(job(&config(8, 1), A2), 2), Some(2));
    assert!(a.reap(A1, JobOutcome::Succeeded, date(1)).is_some());
    assert_eq!(a.register(job(&config(8, 1), A2), 2), None);
    assert_eq!(a.running_uuids(), vec![A2]);
}

#[test]
fn finished_jobs_are_reaped_in_the_order_of_the_report() {
    let mut a = analyzer(8, 4);
    for (i, id) in [A1, A2, A3].into_iter().enumerate() {
        assert_eq!(a.register(job(&config(8, 4), id), i as u32), None);
    }
    let report = vec![
        (A3, JobOutcome::Failed),
        (7, JobOutcome::Succeeded),
        (A1, JobOutcome::Succeeded),
        (A3, JobOutcome::Succeeded),
    ];
    let rows = a.reap_finished(&report, date(99));
    assert_eq!(rows.len(), 2);
    assert_eq!(rows[0].uuid, A3);
    assert_eq!(rows[0].status, "failed");
    assert_eq!(rows[0].date, date(99));
    assert_eq!(rows[1].uuid, A1);
    assert_eq!(rows[1].status, "terminated");
    assert_eq!(a.running_uuids(), vec![A2]);
    assert!(a.reap_finished(&vec![], date(100)).is_empty());
    assert_eq!(a.running_uuids(), vec![A2]);
}

#[test]
fn the_running_set_overrides_the_stored_status() {
    let mut a = analyzer(8, 4);
    assert_eq!(a.register(job(&config(8, 4), A1), 1), None);
    assert_eq!(a.analysis_status(&A1, Some("queued")), Ok(Some(AnalysisStatus::running)));
    assert_eq!(a.analysis_status(&A1, None), Ok(Some(AnalysisStatus::running)));
    assert_eq!(a.analysis_status(&A1, Some("nonsense")), Ok(Some(AnalysisStatus::running)));
    assert_eq!(a.analysis_status(&A2, Some("queued")), Ok(Some(AnalysisStatus::queued)));
    assert_eq!(a.analysis_status(&A2, Some("failed")), Ok(Some(AnalysisStatus::failed)));
    assert_eq!(a.analysis_status(&A2, Some("terminated")), Ok(Some(AnalysisStatus::terminated)));
    assert_eq!(a.analysis_status(&A2, Some("unqueued")), Ok(Some(AnalysisStatus::unqueued)));
    assert_eq!(a.analysis_status(&A2, None), Ok(None));
    assert_eq!(
        a.analysis_status(&A2, Some("nonsense")),
        Err(AnalyzerError::Msg(String::from("failed to convert status str from db")))
    );
}

#[test]
fn a_failed_executor_names_its_standard_error() {
    assert_eq!(job_result(true, "/data/analyses/x/sandbox.stderr"), Ok(()));
    assert_eq!(
        job_result(false, "/data/analyses/x/sandbox.stderr"),
        Err(AnalyzerError::Msg(String::from(
            "analysis failed, inspect /data/analyses/x/sandbox.stderr"
        )))
    );
}

#[test]
fn orchestrator_error_texts() {
    assert_eq!(AnalyzerError::msg("oops"), AnalyzerError::Msg(String::from("oops")));
    assert_eq!(AnalyzerError::Msg(String::from("oops")).to_string(), "oops");
    assert_eq!(AnalyzerError::Io(String::from("disk full")).to_string(), "io: disk full");
    assert_eq!(AnalyzerError::Db(String::from("locked")).to_string(), "db: locked");
}
