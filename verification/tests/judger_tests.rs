use judge_core::dir_utils::{DirHandle, Local, LocalConfig};
use judge_core::judger::{ExecOutcome, NsjailConfig, NsjailJudger, NsjailTask};
use judge_core::report::{task_failed, JudgerResult};
use judge_core::text::{is_float_literal, kv_get, kv_set, parse_i32, split_ascii_tokens};

fn ok_report() -> String {
    // fifteen tokens: memory 100 at index 2, time 0.5 at 8, exit code 0
    // at 11, exit signal 0 at 14
    String::from("t0 t1 100 t3 t4 t5 t6 t7 0.5 t9 t10 0 t12 t13 0")
}

fn failing_report() -> String {
    String::from("t0 t1 200 t3 t4 t5 t6 t7 1.5 t9 t10 1 t12 t13 0")
}

fn task_with_exec(path: &str) -> NsjailTask {
    let mut t = NsjailTask::default();
    t.exec_path = String::from(path);
    t
}

fn judger_with_tasks(n: usize) -> NsjailJudger {
    let mut config = NsjailConfig::default();
    config.rootfs_path = String::from("/rootfs");
    for _ in 0..n {
        config.task_config.push(task_with_exec("/bin/true"));
    }
    NsjailJudger::new(&config)
}

#[test]
fn default_task_is_rooted_at_slash() {
    let t = NsjailTask::default();
    assert_eq!(t.cwd, "/");
    assert_eq!(t.exec_path, "");
    assert!(t.config.is_empty());
    assert!(t.mount.is_empty());
    assert!(t.args.is_empty());
    assert!(t.envs.is_empty());
}

#[test]
fn new_judger_has_fresh_session() {
    let j = judger_with_tasks(2);
    assert_eq!(j.cursor, 0);
    assert_eq!(j.user_dir, -1);
    assert_eq!(j.output_dir, -1);
    assert!(j.dirs.is_empty());
    assert_eq!(j.prefix.len(), 6);
    assert!(j.prefix.chars().all(|c| c.is_ascii_lowercase()));
    assert_eq!(j.config.task_config.len(), 2);
}

#[test]
fn session_prefixes_differ() {
    // the prefix namespaces sessions; two sessions drawing the same one
    // is possible but vanishingly unlikely across a handful of draws
    let mut seen = std::collections::HashSet::new();
    for _ in 0..8 {
        seen.insert(judger_with_tasks(0).prefix.clone());
    }
    assert!(seen.len() > 1);
}

#[test]
fn to_args_token_order() {
    let mut t = task_with_exec("/bin/prog");
    t.config.push((String::from("time_limit"), String::from("1000")));
    t.envs.push((String::from("PATH"), String::from("/bin")));
    t.mount.push(String::from("--bindmount=/a:/b"));
    t.args.push(String::from("-v"));
    t.cwd = String::from("/work");
    let argv = t.to_args(&String::from("/rootfs"));
    assert_eq!(
        argv,
        vec![
            "-Mo",
            "--chroot",
            "/rootfs",
            "--time_limit",
            "1000",
            "--env",
            "PATH=/bin",
            "--bindmount=/a:/b",
            "--cwd",
            "/work",
            "--",
            "/bin/prog",
            "-v",
        ]
    );
}

#[test]
fn default_fd_leaves_task_unchanged() {
    let mut t = task_with_exec("/bin/prog");
    t.config.push((String::from("log"), String::from("x.log")));
    t.default_fd(3);
    assert_eq!(t.config.len(), 1);
    assert_eq!(t.exec_path, "/bin/prog");
}

#[test]
fn convert_task_generates_session_paths() {
    let mut t = task_with_exec("/bin/prog");
    let prefix = String::from("abcdef");
    let (out, rep) = NsjailJudger::convert_task(&String::from("."), &mut t, &prefix, 4);
    assert_eq!(out, "./abcdef_4.out");
    assert_eq!(rep, "./abcdef_4.rep");
    assert_eq!(kv_get(&t.config, "log").unwrap().as_str(), "./abcdef.log");
    assert_eq!(kv_get(&t.config, "stdout").unwrap().as_str(), "./abcdef_4.out");
    assert_eq!(kv_get(&t.config, "report").unwrap().as_str(), "./abcdef_4.rep");
}

#[test]
fn convert_task_keeps_explicit_entries_under_dir() {
    let mut t = task_with_exec("/bin/prog");
    t.config.push((String::from("report"), String::from("my.rep")));
    t.config.push((String::from("stdout"), String::from("my.out")));
    let prefix = String::from("zzzzzz");
    let (out, rep) = NsjailJudger::convert_task(&String::from("/w"), &mut t, &prefix, 0);
    assert_eq!(out, "/w/my.out");
    assert_eq!(rep, "/w/my.rep");
    assert_eq!(kv_get(&t.config, "log").unwrap().as_str(), "/w/zzzzzz.log");
}

#[test]
fn mount_all_appends_to_every_task() {
    let mut j = judger_with_tasks(2);
    let mut config = LocalConfig::new(String::from("/srv/in"));
    config.read_only = true;
    let handle = DirHandle::Bind(Local::from(&config));
    j.mount_all(handle, &String::from("/in"));
    assert_eq!(j.dirs.len(), 1);
    for t in &j.config.task_config {
        assert_eq!(t.mount, vec!["--bindmount_ro=/srv/in:/in"]);
    }
}

#[test]
fn report_round_trip_fifteen_tokens() {
    let r = JudgerResult::from_report(
        ok_report().as_str(),
        &String::from("a.rep"),
        &String::from("a.out"),
    );
    assert_eq!(r.memory, 100);
    assert_eq!(r.time, "0.5");
    assert_eq!(r.exit_code, 0);
    assert_eq!(r.exit_signal, 0);
    assert_eq!(r.report_path, "a.rep");
    assert_eq!(r.output_path, "a.out");
}

#[test]
fn report_with_fourteen_tokens_is_sentinel() {
    let body = "t0 t1 100 t3 t4 t5 t6 t7 0.5 t9 t10 0 t12 t13";
    let r = JudgerResult::from_report(body, &String::from("a.rep"), &String::from("a.out"));
    assert_eq!(r.memory, -1);
    assert_eq!(r.time, "-1");
    assert_eq!(r.exit_code, -1);
    assert_eq!(r.exit_signal, -1);
    assert_eq!(r.report_path, "");
    assert_eq!(r.output_path, "");
}

#[test]
fn report_with_sixteen_tokens_is_sentinel() {
    let body = "t0 t1 100 t3 t4 t5 t6 t7 0.5 t9 t10 0 t12 t13 0 extra";
    let r = JudgerResult::from_report(body, &String::from("a.rep"), &String::from("a.out"));
    assert_eq!(r.memory, -1);
    assert_eq!(r.exit_code, -1);
}

#[test]
fn malformed_field_degrades_alone() {
    // memory is unreadable, the other fields still parse
    let body = "t0 t1 junk t3 t4 t5 t6 t7 2.25 t9 t10 7 t12 t13 9";
    let r = JudgerResult::from_report(body, &String::from("r"), &String::from("o"));
    assert_eq!(r.memory, -1);
    assert_eq!(r.time, "2.25");
    assert_eq!(r.exit_code, 7);
    assert_eq!(r.exit_signal, 9);
}

#[test]
fn malformed_time_token_falls_back() {
    let body = "t0 t1 1 t3 t4 t5 t6 t7 fast t9 t10 0 t12 t13 0";
    let r = JudgerResult::from_report(body, &String::from("r"), &String::from("o"));
    assert_eq!(r.time, "-1");
    assert_eq!(r.memory, 1);
}

#[test]
fn exponent_time_token_is_kept() {
    let body = "t0 t1 1 t3 t4 t5 t6 t7 1e-3 t9 t10 0 t12 t13 0";
    let r = JudgerResult::from_report(body, &String::from("r"), &String::from("o"));
    assert_eq!(r.time, "1e-3");
    assert_eq!(r.time.parse::<f32>().unwrap(), 0.001);
}

#[test]
fn default_result_is_sentinel() {
    let r = JudgerResult::default();
    assert_eq!(r.memory, -1);
    assert_eq!(r.time, "-1");
    assert_eq!(r.exit_code, -1);
    assert_eq!(r.exit_signal, -1);
    assert!(!task_failed(&JudgerResult {
        exit_code: 0,
        exit_signal: 0,
        ..r
    }));
}

#[test]
fn spawn_failure_yields_sentinel() {
    let mut j = judger_with_tasks(1);
    let r = j.run(0, &ExecOutcome::SpawnFailed);
    assert_eq!(r.exit_code, -1);
    assert_eq!(r.report_path, "");
}

#[test]
fn run_parses_report_at_generated_path() {
    let mut j = judger_with_tasks(1);
    let prefix = j.prefix.clone();
    let r = j.run(0, &ExecOutcome::Ran { report: Some(ok_report()) });
    assert_eq!(r.exit_code, 0);
    assert_eq!(r.report_path, format!("./{}_0.rep", prefix));
    assert_eq!(r.output_path, format!("./{}_0.out", prefix));
}

#[test]
fn run_step_advances_cursor() {
    let mut j = judger_with_tasks(2);
    let r = j.run_step(&ExecOutcome::Ran { report: Some(ok_report()) });
    assert_eq!(j.cursor, 1);
    assert!(!task_failed(&r));
}

#[test]
fn stop_on_failure_returns_two_of_three() {
    // task 2 exits non-zero: exactly two results, task 3 never runs
    let mut j = judger_with_tasks(3);
    let outcomes = vec![
        ExecOutcome::Ran { report: Some(ok_report()) },
        ExecOutcome::Ran { report: Some(failing_report()) },
        ExecOutcome::Ran { report: Some(ok_report()) },
    ];
    let results = j.run_all(&outcomes);
    assert_eq!(results.len(), 2);
    assert!(!task_failed(&results[0]));
    assert!(task_failed(&results[1]));
    assert_eq!(j.cursor, 2);
    // the third task was never converted: its options are still empty
    assert!(j.config.task_config[2].config.is_empty());
}

#[test]
fn run_all_clean_batch_runs_everything() {
    let mut j = judger_with_tasks(3);
    let outcomes = vec![
        ExecOutcome::Ran { report: Some(ok_report()) },
        ExecOutcome::Ran { report: Some(ok_report()) },
        ExecOutcome::Ran { report: Some(ok_report()) },
    ];
    let results = j.run_all(&outcomes);
    assert_eq!(results.len(), 3);
    assert!(results.iter().all(|r| !task_failed(r)));
}

#[test]
fn run_all_stops_on_signal_too() {
    let signal_report = "t0 t1 1 t3 t4 t5 t6 t7 0.1 t9 t10 0 t12 t13 11";
    let mut j = judger_with_tasks(2);
    let outcomes = vec![
        ExecOutcome::Ran { report: Some(String::from(signal_report)) },
        ExecOutcome::Ran { report: Some(ok_report()) },
    ];
    let results = j.run_all(&outcomes);
    assert_eq!(results.len(), 1);
    assert_eq!(results[0].exit_signal, 11);
}

#[test]
fn run_prepare_builds_argv_with_defaults() {
    let mut j = judger_with_tasks(1);
    let prefix = j.prefix.clone();
    let (argv, out, rep) = j.run_prepare(0);
    assert_eq!(out, format!("./{}_0.out", prefix));
    assert_eq!(rep, format!("./{}_0.rep", prefix));
    assert_eq!(argv[0], "-Mo");
    assert_eq!(argv[1], "--chroot");
    assert_eq!(argv[2], "/rootfs");
    assert!(argv.contains(&String::from("--log")));
    assert!(argv.contains(&String::from("--stdout")));
    assert!(argv.contains(&String::from("--report")));
    assert_eq!(argv[argv.len() - 1], "/bin/true");
}

#[test]
fn tokens_split_on_ascii_whitespace_runs() {
    let toks = split_ascii_tokens("  a\t\tb \n c  ");
    assert_eq!(toks, vec!["a", "b", "c"]);
}

#[test]
fn integer_parsing_matches_std() {
    for s in ["0", "-1", "+42", "2147483647", "-2147483648", "2147483648", "abc", "", "-", "1 2"] {
        assert_eq!(parse_i32(s), s.parse::<i32>().ok(), "token {:?}", s);
    }
}

#[test]
fn kv_set_replaces_first_binding() {
    let mut m: Vec<(String, String)> = Vec::new();
    kv_set(&mut m, "k", String::from("1"));
    kv_set(&mut m, "k", String::from("2"));
    kv_set(&mut m, "other", String::from("3"));
    assert_eq!(m.len(), 2);
    assert_eq!(kv_get(&m, "k").unwrap().as_str(), "2");
    assert_eq!(kv_get(&m, "other").unwrap().as_str(), "3");
    assert!(kv_get(&m, "missing").is_none());
}

#[test]
fn unreadable_report_yields_sentinel() {
    let mut j = judger_with_tasks(1);
    let r = j.run(0, &ExecOutcome::Ran { report: None });
    assert_eq!(r.exit_code, -1);
    assert_eq!(r.memory, -1);
    assert_eq!(r.report_path, "");
}

#[test]
fn duplicate_is_a_deep_equal_result() {
    let r = JudgerResult::from_report(
        ok_report().as_str(),
        &String::from("a.rep"),
        &String::from("a.out"),
    );
    let d = r.duplicate();
    assert_eq!(d.memory, r.memory);
    assert_eq!(d.time, r.time);
    assert_eq!(d.exit_code, r.exit_code);
    assert_eq!(d.exit_signal, r.exit_signal);
    assert_eq!(d.report_path, r.report_path);
    assert_eq!(d.output_path, r.output_path);
}

#[test]
fn float_tokens_match_std() {
    let cases = [
        "0", "0.5", "-1.25", "+3.", ".5", "1.e2", "1e-3", "2E+7", "1e999",
        "inf", "-inf", "+Infinity", "NaN", "nan",
        "", "+", "-", ".", "e5", "1.2.3", "1e", "1e+", "0x1", " 1", "1 ", "in", "infinit",
    ];
    for s in cases {
        assert_eq!(
            is_float_literal(s),
            s.parse::<f32>().is_ok(),
            "token {:?} disagrees with the standard parser",
            s
        );
    }
}
