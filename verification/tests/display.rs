use theater_client::display::{
    display_build_event, display_message, join, level_marker, pad_left, should_display,
};
use theater_client::protocol::{
    BuildEventDetails, BuildEventType, FrontendMessage, OperationSummary, OperationType,
};

fn no_details() -> BuildEventDetails {
    BuildEventDetails {
        level: None,
        percent_complete: None,
        status: None,
        command: None,
        args: None,
        stdout: None,
        stderr: None,
        success: None,
        error: None,
        wasm_path: None,
        wasm_hash: None,
    }
}

fn build_event(event_type: BuildEventType, details: BuildEventDetails) -> FrontendMessage {
    FrontendMessage::BuildEvent {
        operation_id: "op1".to_string(),
        event_type,
        message: "msg".to_string(),
        details,
    }
}

fn text(value: &str) -> Option<String> {
    Some(value.to_string())
}

#[test]
fn operation_type_names() {
    assert_eq!(OperationType::Start.to_string(), "Start");
    assert_eq!(OperationType::Stop.to_string(), "Stop");
    assert_eq!(OperationType::Build.to_string(), "Build");
    assert_eq!(OperationType::Change.to_string(), "Change");
}

#[test]
fn status_without_operations() {
    let message = FrontendMessage::Status { child_running: true, active_operations: vec![] };
    assert_eq!(display_message(&message), vec!["Status:", "  Child running: true"]);
}

#[test]
fn status_with_operations() {
    let message = FrontendMessage::Status {
        child_running: false,
        active_operations: vec![
            OperationSummary {
                operation_id: "7".to_string(),
                operation_type: OperationType::Build,
                description: "ignored".to_string(),
            },
            OperationSummary {
                operation_id: "8".to_string(),
                operation_type: OperationType::Change,
                description: "ignored too".to_string(),
            },
        ],
    };
    assert_eq!(
        display_message(&message),
        vec![
            "Status:",
            "  Child running: false",
            "  Active operations:",
            "    - Build (7)",
            "    - Change (8)",
        ]
    );
}

#[test]
fn operation_started() {
    let message = FrontendMessage::OperationStarted {
        operation_id: "42".to_string(),
        operation_type: OperationType::Start,
        description: "starting child".to_string(),
    };
    assert_eq!(
        display_message(&message),
        vec!["→ Start operation started: starting child", "  Operation ID: 42"]
    );
}

#[test]
fn operation_progress() {
    let message = FrontendMessage::OperationProgress {
        operation_id: "42".to_string(),
        description: "compiling".to_string(),
        percent_complete: "12.5".to_string(),
    };
    assert_eq!(display_message(&message), vec!["  [42] 12.5% - compiling"]);
}

#[test]
fn operation_completed() {
    let done = FrontendMessage::OperationCompleted {
        operation_id: "42".to_string(),
        success: true,
        message: "all good".to_string(),
    };
    assert_eq!(display_message(&done), vec!["✓ Operation 42 complete: all good"]);
    let failed = FrontendMessage::OperationCompleted {
        operation_id: "43".to_string(),
        success: false,
        message: "broke".to_string(),
    };
    assert_eq!(display_message(&failed), vec!["✗ Operation 43 complete: broke"]);
}

#[test]
fn child_started_and_stopped() {
    let started = FrontendMessage::ChildStarted { child_id: "kid".to_string() };
    assert_eq!(display_message(&started), vec!["✓ Child actor started: kid"]);
    let stopped = FrontendMessage::ChildStopped { child_id: "kid".to_string() };
    assert_eq!(display_message(&stopped), vec!["✓ Child actor stopped: kid"]);
}

#[test]
fn log_and_error() {
    let log = FrontendMessage::Log { level: "WARN".to_string(), message: "careful".to_string() };
    assert_eq!(display_message(&log), vec!["[WARN] careful"]);
    let error = FrontendMessage::Error { code: "E42".to_string(), message: "bad".to_string() };
    assert_eq!(display_message(&error), vec!["Error E42: bad"]);
}

#[test]
fn build_log_defaults_to_info() {
    let message = build_event(BuildEventType::Log, no_details());
    assert_eq!(display_message(&message), vec!["  ℹ [Info] msg"]);
}

#[test]
fn build_log_marker_follows_the_level_in_any_case() {
    let cases = [
        ("info", "ℹ"),
        ("INFO", "ℹ"),
        ("Warning", "⚠"),
        ("ERROR", "✗"),
        ("error", "✗"),
        ("Debug", "🔍"),
        ("trace", "·"),
        ("", "·"),
        ("warn", "·"),
    ];
    for (level, marker) in cases {
        let mut details = no_details();
        details.level = text(level);
        let message = build_event(BuildEventType::Log, details);
        assert_eq!(display_message(&message), vec![format!("  {} [{}] msg", marker, level)]);
    }
}

#[test]
fn level_marker_expects_lower_case() {
    assert_eq!(level_marker("info"), "ℹ");
    assert_eq!(level_marker("warning"), "⚠");
    assert_eq!(level_marker("error"), "✗");
    assert_eq!(level_marker("debug"), "🔍");
    assert_eq!(level_marker("Info"), "·");
    assert_eq!(level_marker("information"), "·");
}

#[test]
fn build_progress_with_percent() {
    let mut details = no_details();
    details.percent_complete = text("7.5");
    let message = build_event(BuildEventType::Progress, details.clone());
    assert_eq!(display_message(&message), vec!["  → [op1]   7.5% - msg (In Progress)"]);
    details.percent_complete = text("100.0");
    details.status = text("Linking");
    let message = build_event(BuildEventType::Progress, details);
    assert_eq!(display_message(&message), vec!["  → [op1] 100.0% - msg (Linking)"]);
}

#[test]
fn build_progress_matches_float_formatting() {
    for percent in [0.0f32, 5.0, 12.34, 99.95, 100.0, 1234.5] {
        let mut details = no_details();
        details.percent_complete = Some(format!("{:.1}", percent));
        let message = build_event(BuildEventType::Progress, details);
        assert_eq!(
            display_message(&message),
            vec![format!("  → [op1] {:>5.1}% - msg (In Progress)", percent)]
        );
    }
}

#[test]
fn build_progress_without_percent() {
    let mut details = no_details();
    details.status = text("unused");
    let message = build_event(BuildEventType::Progress, details);
    assert_eq!(display_message(&message), vec!["  → [op1] Progress: msg"]);
}

#[test]
fn build_command_started() {
    let mut details = no_details();
    let message = build_event(BuildEventType::CommandStarted, details.clone());
    assert_eq!(display_message(&message), vec!["  $ [op1] Running: msg "]);
    details.args = Some(vec!["build".to_string(), "--release".to_string()]);
    let message = build_event(BuildEventType::CommandStarted, details.clone());
    assert_eq!(display_message(&message), vec!["  $ [op1] Running: msg build --release"]);
    details.args = Some(vec![]);
    let message = build_event(BuildEventType::CommandStarted, details);
    assert_eq!(display_message(&message), vec!["  $ [op1] Running: msg "]);
}

#[test]
fn build_command_output_shows_both_streams() {
    let mut details = no_details();
    details.stdout = text("line one\r\nline two\n");
    details.stderr = text("warning: x\n\nnote");
    let message = build_event(BuildEventType::CommandOutput, details);
    assert_eq!(
        display_message(&message),
        vec![
            "  │ [op1] Output:",
            "  │  line one",
            "  │  line two",
            "  │ [op1] Errors:",
            "  │  warning: x",
            "  │  ",
            "  │  note",
        ]
    );
}

#[test]
fn build_command_output_skips_blank_streams() {
    let mut details = no_details();
    details.stdout = text("  \n\t");
    details.stderr = text("");
    let message = build_event(BuildEventType::CommandOutput, details);
    assert_eq!(display_message(&message), Vec::<String>::new());
    let message = build_event(BuildEventType::CommandOutput, no_details());
    assert_eq!(display_message(&message), Vec::<String>::new());
}

#[test]
fn build_command_output_skips_the_missing_stderr_notice() {
    let mut details = no_details();
    details.stdout = text("out");
    details.stderr = text("Stderr not available from host function");
    let message = build_event(BuildEventType::CommandOutput, details.clone());
    assert_eq!(display_message(&message), vec!["  │ [op1] Output:", "  │  out"]);
    details.stderr = text("Stderr not available from host function\n");
    let message = build_event(BuildEventType::CommandOutput, details);
    assert_eq!(
        display_message(&message),
        vec![
            "  │ [op1] Output:",
            "  │  out",
            "  │ [op1] Errors:",
            "  │  Stderr not available from host function",
        ]
    );
}

#[test]
fn build_complete() {
    let message = build_event(BuildEventType::BuildComplete, no_details());
    assert_eq!(display_message(&message), vec!["  ✗ [op1] Build complete: msg"]);
    let mut details = no_details();
    details.success = Some(true);
    details.wasm_path = text("/tmp/a.wasm");
    details.wasm_hash = text("abc123");
    let message = build_event(BuildEventType::BuildComplete, details);
    assert_eq!(
        display_message(&message),
        vec![
            "  ✓ [op1] Build complete: msg",
            "  │  WASM file: /tmp/a.wasm",
            "  │  WASM hash: abc123",
        ]
    );
    let mut details = no_details();
    details.success = Some(false);
    details.error = text("linker failed");
    let message = build_event(BuildEventType::BuildComplete, details);
    assert_eq!(
        display_message(&message),
        vec!["  ✗ [op1] Build complete: msg", "  │  Error: linker failed"]
    );
}

#[test]
fn build_file_extracted() {
    let message = build_event(BuildEventType::FileExtracted, no_details());
    assert_eq!(display_message(&message), vec!["  • [op1] Extracted: msg"]);
}

#[test]
fn display_build_event_is_what_display_message_shows() {
    let mut details = no_details();
    details.level = text("Error");
    assert_eq!(
        display_build_event("op9", BuildEventType::Log, "boom", &details),
        vec!["  ✗ [Error] boom"]
    );
}

#[test]
fn pad_left_fills_to_the_width() {
    assert_eq!(pad_left("1.0", 5), "  1.0");
    assert_eq!(pad_left("12345", 5), "12345");
    assert_eq!(pad_left("123456", 5), "123456");
    assert_eq!(pad_left("", 3), "   ");
    assert_eq!(pad_left("é", 3), "  é");
    assert_eq!(pad_left("x", 0), "x");
}

#[test]
fn join_puts_the_separator_between_items() {
    assert_eq!(join(&vec![], " "), "");
    assert_eq!(join(&vec!["a".to_string()], " "), "a");
    assert_eq!(join(&vec!["a".to_string(), "b".to_string(), "c".to_string()], ", "), "a, b, c");
    assert_eq!(join(&vec!["".to_string(), "".to_string()], "-"), "-");
}

#[test]
fn build_events_are_shown_only_when_verbose() {
    for event_type in [
        BuildEventType::Log,
        BuildEventType::Progress,
        BuildEventType::CommandStarted,
        BuildEventType::CommandOutput,
        BuildEventType::FileExtracted,
    ] {
        let message = build_event(event_type, no_details());
        assert!(!should_display(&message, false));
        assert!(should_display(&message, true));
    }
}

#[test]
fn build_complete_is_always_shown() {
    let message = build_event(BuildEventType::BuildComplete, no_details());
    assert!(should_display(&message, false));
    assert!(should_display(&message, true));
}

#[test]
fn other_messages_are_always_shown() {
    let messages = vec![
        FrontendMessage::Status { child_running: true, active_operations: vec![] },
        FrontendMessage::ChildStarted { child_id: "k".to_string() },
        FrontendMessage::Log { level: "info".to_string(), message: "m".to_string() },
        FrontendMessage::Error { code: "c".to_string(), message: "m".to_string() },
    ];
    for message in messages {
        assert!(should_display(&message, false));
        assert!(should_display(&message, true));
    }
}
