use image_trainer::facade::{
    dependency_args, dependency_report, prediction_args, relay_labeled, relay_trimmed,
    script_location, single_script_args, strip_verbatim_prefix, tabular_args, GPU_FAILURE_LABEL,
    GPU_SCRIPT, PREDICTION_FAILURE_LABEL, PREDICTION_SCRIPT, SYSTEM_INFO_FAILURE_LABEL,
    SYSTEM_INFO_SCRIPT, TABULAR_FAILURE_LABEL, TABULAR_SCRIPT,
};
use image_trainer::orchestrator::{default_candidates, invoke, Orchestrator, Outcome, RunEvent};
use image_trainer::process::{error_message, ProcessResult};
use image_trainer::text::{sanitized_text, trim_str};

fn finished(stdout: &str, stderr: &str, success: bool, code: Option<i32>) -> RunEvent {
    RunEvent::Launched(ProcessResult {
        stdout: stdout.to_string(),
        stderr: stderr.to_string(),
        success,
        code,
    })
}

#[test]
fn first_success_wins_and_stops() {
    let mut machine = Orchestrator::new();
    let first = machine.observe(finished("", "no such module", false, Some(1)));
    assert_eq!(first, None);
    let second = machine.observe(finished("payload\n", "", true, Some(0)));
    assert_eq!(second, Some("payload\n".to_string()));
    // The driver stops on the accepted attempt; a third candidate is never run.
}

#[test]
fn invoke_accepts_first_success_even_with_empty_output() {
    let events = vec![
        RunEvent::LaunchFailed("python: not found".to_string()),
        finished("", "", true, Some(0)),
        finished("later", "", true, Some(0)),
    ];
    assert_eq!(invoke(events), Outcome::Accepted(String::new()));
}

#[test]
fn invoke_rejects_with_last_error() {
    let events = vec![
        finished("", "first failure", false, Some(1)),
        RunEvent::LaunchFailed("second failure".to_string()),
    ];
    assert_eq!(invoke(events), Outcome::Rejected("second failure".to_string()));
}

#[test]
fn invoke_synthesizes_exit_code_for_silent_failures() {
    let events = vec![finished("", " \n", false, Some(2))];
    assert_eq!(invoke(events), Outcome::Rejected("Exited with code: 2".to_string()));
}

#[test]
fn empty_candidate_list_rejects_with_empty_message() {
    assert_eq!(invoke(Vec::new()), Outcome::Rejected(String::new()));
    let machine = Orchestrator::new();
    assert_eq!(machine.finish(), Outcome::Rejected(String::new()));
}

#[test]
fn launch_failure_text_is_recorded_verbatim() {
    let mut machine = Orchestrator::new();
    let got = machine.observe(RunEvent::LaunchFailed("program not found".to_string()));
    assert_eq!(got, None);
    assert_eq!(machine.finish(), Outcome::Rejected("program not found".to_string()));
}

#[test]
fn error_message_prefers_standard_error() {
    let r = ProcessResult {
        stdout: "from stdout".to_string(),
        stderr: "from stderr\n".to_string(),
        success: false,
        code: Some(1),
    };
    assert_eq!(error_message(&r), "from stderr\n".to_string());
}

#[test]
fn error_message_falls_back_to_standard_output() {
    let r = ProcessResult {
        stdout: "from stdout".to_string(),
        stderr: " \t\n".to_string(),
        success: false,
        code: Some(1),
    };
    assert_eq!(error_message(&r), "from stdout".to_string());
}

#[test]
fn error_message_synthesizes_exit_code_when_both_blank() {
    let r = ProcessResult {
        stdout: "\n".to_string(),
        stderr: "".to_string(),
        success: false,
        code: Some(127),
    };
    assert_eq!(error_message(&r), "Exited with code: 127".to_string());
}

#[test]
fn error_message_exit_code_may_be_negative() {
    let r = ProcessResult {
        stdout: String::new(),
        stderr: String::new(),
        success: false,
        code: Some(-9),
    };
    assert_eq!(error_message(&r), "Exited with code: -9".to_string());
}

#[test]
fn error_message_unknown_exit_code_reads_minus_one() {
    let r = ProcessResult {
        stdout: String::new(),
        stderr: String::new(),
        success: false,
        code: None,
    };
    assert_eq!(error_message(&r), "Exited with code: -1".to_string());
}

#[test]
fn invalid_bytes_decode_with_replacement_characters() {
    let r = ProcessResult::from_raw(vec![0xff, b'h', b'i'], vec![0xc3, 0x28], false, Some(1));
    assert_eq!(r.stdout, "\u{FFFD}hi".to_string());
    assert_eq!(r.stderr, "\u{FFFD}(".to_string());
}

#[test]
fn valid_bytes_decode_verbatim() {
    let r = ProcessResult::from_raw(b"ok\n".to_vec(), Vec::new(), true, Some(0));
    assert_eq!(r.stdout, "ok\n".to_string());
    assert_eq!(r.stderr, String::new());
    assert!(r.success);
}

#[test]
fn trimming_strips_only_the_edges() {
    assert_eq!(trim_str("  {\"a\": 1,\n \"b\": 2}\n\n"), "{\"a\": 1,\n \"b\": 2}".to_string());
    assert_eq!(trim_str("\t\r\n "), String::new());
    assert_eq!(trim_str(""), String::new());
    assert_eq!(trim_str("a b"), "a b".to_string());
    assert_eq!(trim_str("x"), "x".to_string());
}

#[test]
fn tabular_arguments_exact_order() {
    let args = tabular_args(
        "/data/tabular_processor.py".to_string(),
        "describe".to_string(),
        "/data/x.csv".to_string(),
        None,
        None,
    );
    assert_eq!(
        args,
        vec![
            "/data/tabular_processor.py".to_string(),
            "--action".to_string(),
            "describe".to_string(),
            "--file".to_string(),
            "/data/x.csv".to_string(),
        ]
    );
}

#[test]
fn tabular_arguments_optional_flags_in_order() {
    let args = tabular_args(
        "t.py".to_string(),
        "train".to_string(),
        "in.csv".to_string(),
        Some("{\"depth\": 3}".to_string()),
        Some("out.json".to_string()),
    );
    assert_eq!(
        args,
        vec![
            "t.py".to_string(),
            "--action".to_string(),
            "train".to_string(),
            "--file".to_string(),
            "in.csv".to_string(),
            "--params".to_string(),
            "{\"depth\": 3}".to_string(),
            "--out".to_string(),
            "out.json".to_string(),
        ]
    );
}

#[test]
fn prediction_arguments_exact_order() {
    let args = prediction_args(
        "predict.py".to_string(),
        "cat.png".to_string(),
        "model.pt".to_string(),
        "resnet".to_string(),
        "cat,dog".to_string(),
    );
    assert_eq!(
        args,
        vec![
            "predict.py".to_string(),
            "--image".to_string(),
            "cat.png".to_string(),
            "--model_path".to_string(),
            "model.pt".to_string(),
            "--model_type".to_string(),
            "resnet".to_string(),
            "--classes".to_string(),
            "cat,dog".to_string(),
        ]
    );
}

#[test]
fn probe_arguments_are_the_script_alone() {
    let args = single_script_args("check_gpu.py".to_string());
    assert_eq!(args, vec!["check_gpu.py".to_string()]);
}

#[test]
fn dependency_arguments_run_the_probe_in_line() {
    let args = dependency_args();
    assert_eq!(args.len(), 2);
    assert_eq!(args[0], "-c".to_string());
    assert!(args[1].contains("importlib.util"));
    assert!(args[1].contains("'python': True"));
}

#[test]
fn script_locations_compose_under_the_base() {
    assert_eq!(
        script_location("/app/resources", TABULAR_SCRIPT),
        "/app/resources/python_backend/tabular_processor.py".to_string()
    );
    assert_eq!(
        script_location("/r", GPU_SCRIPT),
        "/r/python_backend/check_gpu.py".to_string()
    );
    assert_eq!(
        script_location("/r", SYSTEM_INFO_SCRIPT),
        "/r/python_backend/system_info.py".to_string()
    );
    assert_eq!(
        script_location("/r", PREDICTION_SCRIPT),
        "/r/python_backend/predict.py".to_string()
    );
}

#[test]
fn verbatim_prefix_is_stripped_only_when_present() {
    assert_eq!(
        strip_verbatim_prefix("\\\\?\\C:\\app\\run.py"),
        "C:\\app\\run.py".to_string()
    );
    assert_eq!(strip_verbatim_prefix("/plain/path.py"), "/plain/path.py".to_string());
    assert_eq!(strip_verbatim_prefix("\\\\?"), "\\\\?".to_string());
}

#[test]
fn relay_labeled_passes_payload_verbatim_and_labels_failure() {
    assert_eq!(
        relay_labeled(TABULAR_FAILURE_LABEL, Outcome::Accepted(" raw \n".to_string())),
        Ok(" raw \n".to_string())
    );
    assert_eq!(
        relay_labeled(TABULAR_FAILURE_LABEL, Outcome::Rejected("err".to_string())),
        Err("Data processing failed: err".to_string())
    );
    assert_eq!(
        relay_labeled(TABULAR_FAILURE_LABEL, Outcome::Rejected(String::new())),
        Err("Data processing failed: ".to_string())
    );
}

#[test]
fn relay_trimmed_trims_success_and_labels_failure() {
    assert_eq!(
        relay_trimmed(GPU_FAILURE_LABEL, Outcome::Accepted("cuda: yes\n".to_string())),
        Ok("cuda: yes".to_string())
    );
    assert_eq!(
        relay_trimmed(GPU_FAILURE_LABEL, Outcome::Rejected("no interpreter".to_string())),
        Err("GPU detection failed: no interpreter".to_string())
    );
    assert_eq!(
        relay_trimmed(SYSTEM_INFO_FAILURE_LABEL, Outcome::Rejected("boom".to_string())),
        Err("System info failed: boom".to_string())
    );
    assert_eq!(
        relay_trimmed(PREDICTION_FAILURE_LABEL, Outcome::Rejected("boom".to_string())),
        Err("Prediction failed: boom".to_string())
    );
}

#[test]
fn dependency_report_trims_accepted_output() {
    assert_eq!(
        dependency_report(Outcome::Accepted("{\"python\": true}\n".to_string())),
        "{\"python\": true}".to_string()
    );
}

#[test]
fn dependency_report_degrades_to_success_shaped_json() {
    let report = dependency_report(Outcome::Rejected(
        "no \"python\" found\nanywhere".to_string(),
    ));
    assert_eq!(
        report,
        "{\"python\": false, \"version\": null, \"pandas\": false, \"sklearn\": false, \"torch\": false, \"timm\": false, \"optuna\": false, \"error\": \"no \\\"python\\\" found anywhere\"}".to_string()
    );
}

#[test]
fn sanitized_text_escapes_quotes_and_newlines() {
    assert_eq!(sanitized_text("a\"b\nc"), "a\\\"b c".to_string());
    assert_eq!(sanitized_text("plain"), "plain".to_string());
    assert_eq!(sanitized_text(""), String::new());
}

#[test]
fn sanitized_text_escapes_backslashes_and_control_characters() {
    assert_eq!(sanitized_text("a\\b"), "a\\\\b".to_string());
    assert_eq!(sanitized_text("\\"), "\\\\".to_string());
    assert_eq!(sanitized_text("a\rb\tc"), "a\\u000db\\u0009c".to_string());
    assert_eq!(sanitized_text("\u{1b}\u{1f}"), "\\u001b\\u001f".to_string());
}

#[test]
fn dependency_report_failure_json_survives_a_backslash() {
    let report = dependency_report(Outcome::Rejected("\\".to_string()));
    assert_eq!(
        report,
        "{\"python\": false, \"version\": null, \"pandas\": false, \"sklearn\": false, \"torch\": false, \"timm\": false, \"optuna\": false, \"error\": \"\\\\\"}".to_string()
    );
}

#[test]
fn trimming_covers_unicode_whitespace() {
    assert_eq!(trim_str("\u{0C}\u{A0}x\u{3000}\u{2028}"), "x".to_string());
    assert_eq!(trim_str("\u{2003}\u{85}"), String::new());
}

#[test]
fn default_candidates_in_preference_order() {
    let c = default_candidates();
    assert_eq!(
        c,
        vec!["python".to_string(), "python3".to_string(), "py".to_string()]
    );
}
