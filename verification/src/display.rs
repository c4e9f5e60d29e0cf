//! How the messages of the managed actor are shown to the user.
//!
//! Every message becomes a list of lines. Printing them is left to the
//! caller.

use crate::protocol::{
    summaries_of, texts_of, BuildEventDetails, BuildEventDetailsView, BuildEventType,
    FrontendMessage, FrontendMessageView, OperationSummaryView,
};
use crate::text::{is_blank, lines, lines_of, lowercase, lowercase_of, trimmed};
use vstd::prelude::*;
use vstd::string::{StrSliceExecFns, StringExecFns};

verus! {

/// `count` spaces.
pub open spec fn spaces(count: nat) -> Seq<char> {
    Seq::new(count, |i: int| ' ')
}

/// `text`, with spaces in front of it until it is `width` characters wide.
pub open spec fn padded(text: Seq<char>, width: nat) -> Seq<char> {
    if text.len() >= width {
        text
    } else {
        spaces((width - text.len()) as nat) + text
    }
}

/// `items` in one line, with `separator` between each two.
pub open spec fn joined(items: Seq<Seq<char>>, separator: Seq<char>) -> Seq<char>
    decreases items.len(),
{
    if items.len() == 0 {
        Seq::empty()
    } else if items.len() == 1 {
        items[0]
    } else {
        joined(items.drop_last(), separator) + separator + items.last()
    }
}

/// `lines`, each behind `prefix`.
pub open spec fn prefixed(prefix: Seq<char>, lines: Seq<Seq<char>>) -> Seq<Seq<char>> {
    lines.map_values(|line: Seq<char>| prefix + line)
}

/// The sign that stands for success or failure.
pub open spec fn outcome_mark(success: bool) -> Seq<char> {
    if success {
        "✓"@
    } else {
        "✗"@
    }
}

/// How a truth value is written.
pub open spec fn truth(value: bool) -> Seq<char> {
    if value {
        "true"@
    } else {
        "false"@
    }
}

/// The sign in front of a build log line, by the level of the line in lower
/// case.
pub open spec fn marker_of(lowered: Seq<char>) -> Seq<char> {
    if lowered == "info"@ {
        "ℹ"@
    } else if lowered == "warning"@ {
        "⚠"@
    } else if lowered == "error"@ {
        "✗"@
    } else if lowered == "debug"@ {
        "🔍"@
    } else {
        "·"@
    }
}

/// The line for one operation in a status report.
pub open spec fn operation_line(operation: OperationSummaryView) -> Seq<char> {
    "    - "@ + operation.operation_type.label() + " ("@ + operation.operation_id + ")"@
}

/// The lines for the output of a command, under `heading`. Output that is
/// absent or blank gives no lines.
pub open spec fn output_lines(
    operation_id: Seq<char>,
    heading: Seq<char>,
    output: Option<Seq<char>>,
) -> Seq<Seq<char>> {
    match output {
        Some(text) => if trimmed(text).len() == 0 {
            Seq::empty()
        } else {
            seq!["  │ ["@ + operation_id + "] "@ + heading] + prefixed("  │  "@, lines_of(text))
        },
        None => Seq::empty(),
    }
}

/// A line that holds `label` and `value`, if there is a value.
pub open spec fn optional_line(label: Seq<char>, value: Option<Seq<char>>) -> Seq<Seq<char>> {
    match value {
        Some(text) => seq![label + text],
        None => Seq::empty(),
    }
}

/// What the error stream of a command holds when the host has none to give.
pub open spec fn no_stderr() -> Seq<char> {
    "Stderr not available from host function"@
}

/// The lines that show a build event.
pub open spec fn build_event_lines(
    operation_id: Seq<char>,
    event_type: BuildEventType,
    message: Seq<char>,
    details: BuildEventDetailsView,
) -> Seq<Seq<char>> {
    match event_type {
        BuildEventType::Log => {
            let level = match details.level {
                Some(level) => level,
                None => "Info"@,
            };
            seq!["  "@ + marker_of(lowercase_of(level)) + " ["@ + level + "] "@ + message]
        },
        BuildEventType::Progress => match details.percent_complete {
            Some(percent) => {
                let status = match details.status {
                    Some(status) => status,
                    None => "In Progress"@,
                };
                seq![
                    "  → ["@ + operation_id + "] "@ + padded(percent, 5) + "% - "@ + message
                        + " ("@ + status + ")"@,
                ]
            },
            None => seq!["  → ["@ + operation_id + "] Progress: "@ + message],
        },
        BuildEventType::CommandStarted => {
            let args = match details.args {
                Some(args) => joined(args, " "@),
                None => Seq::empty(),
            };
            seq!["  $ ["@ + operation_id + "] Running: "@ + message + " "@ + args]
        },
        BuildEventType::CommandOutput => {
            output_lines(operation_id, "Output:"@, details.stdout) + (if details.stderr == Some(
                no_stderr(),
            ) {
                Seq::empty()
            } else {
                output_lines(operation_id, "Errors:"@, details.stderr)
            })
        },
        BuildEventType::BuildComplete => {
            let success = match details.success {
                Some(success) => success,
                None => false,
            };
            seq![
                "  "@ + outcome_mark(success) + " ["@ + operation_id + "] Build complete: "@
                    + message,
            ] + optional_line("  │  WASM file: "@, details.wasm_path) + optional_line(
                "  │  WASM hash: "@,
                details.wasm_hash,
            ) + optional_line("  │  Error: "@, details.error)
        },
        BuildEventType::FileExtracted => seq![
            "  • ["@ + operation_id + "] Extracted: "@ + message,
        ],
    }
}

/// The lines that show a message.
pub open spec fn message_lines(message: FrontendMessageView) -> Seq<Seq<char>> {
    match message {
        FrontendMessageView::Status { child_running, active_operations } => {
            seq!["Status:"@, "  Child running: "@ + truth(child_running)] + (
            if active_operations.len() == 0 {
                Seq::empty()
            } else {
                seq!["  Active operations:"@] + active_operations.map_values(
                    |operation: OperationSummaryView| operation_line(operation),
                )
            })
        },
        FrontendMessageView::OperationStarted { operation_id, operation_type, description } => seq![
            "→ "@ + operation_type.label() + " operation started: "@ + description,
            "  Operation ID: "@ + operation_id,
        ],
        FrontendMessageView::OperationProgress { operation_id, description, percent_complete } => {
            seq!["  ["@ + operation_id + "] "@ + percent_complete + "% - "@ + description]
        },
        FrontendMessageView::OperationCompleted { operation_id, success, message } => seq![
            outcome_mark(success) + " Operation "@ + operation_id + " complete: "@ + message,
        ],
        FrontendMessageView::ChildStarted { child_id } => seq![
            "✓ Child actor started: "@ + child_id,
        ],
        FrontendMessageView::ChildStopped { child_id } => seq![
            "✓ Child actor stopped: "@ + child_id,
        ],
        FrontendMessageView::Log { level, message } => seq!["["@ + level + "] "@ + message],
        FrontendMessageView::Error { code, message } => seq!["Error "@ + code + ": "@ + message],
        FrontendMessageView::BuildEvent { operation_id, event_type, message, details } => {
            build_event_lines(operation_id, event_type, message, details)
        },
    }
}

/// Whether a message is shown. Build events are shown only when the user
/// asked for all of them, except the one that reports the end of a build.
pub open spec fn is_shown(message: FrontendMessageView, verbose: bool) -> bool {
    match message {
        FrontendMessageView::BuildEvent { event_type, .. } => {
            verbose || event_type == BuildEventType::BuildComplete
        },
        _ => true,
    }
}

/// Whether a message is shown.
pub fn should_display(message: &FrontendMessage, verbose: bool) -> (shown: bool)
    ensures
        shown == is_shown(message@, verbose),
{
    match message {
        FrontendMessage::BuildEvent { operation_id: _, event_type, message: _, details: _ } => {
            verbose || matches!(event_type, BuildEventType::BuildComplete)
        },
        _ => true,
    }
}

/// Puts spaces in front of `text` until it is `width` characters wide.
pub fn pad_left(text: &str, width: usize) -> (out: String)
    ensures
        out@ == padded(text@, width as nat),
{
    let len: usize = text.unicode_len();
    let mut out = String::new();
    if len < width {
        let missing: usize = width - len;
        let mut done: usize = 0;
        while done < missing
            invariant
                done <= missing,
                out@ == spaces(done as nat),
            decreases missing - done,
        {
            proof {
                reveal_strlit(" ");
            }
            out.append(" ");
            done = done + 1;
        }
    }
    out.append(text);
    out
}

/// Writes `items` in one line, with `separator` between each two.
pub fn join(items: &Vec<String>, separator: &str) -> (out: String)
    ensures
        out@ == joined(texts_of(items@), separator@),
{
    let mut out = String::new();
    let ghost all = texts_of(items@);
    for i in 0..items.len()
        invariant
            all == texts_of(items@),
            out@ == joined(all.take(i as int), separator@),
    {
        assert(all.take(i + 1).drop_last() =~= all.take(i as int));
        if i > 0 {
            out.append(separator);
        }
        out.append(items[i].as_str());
    }
    assert(all.take(items@.len() as int) =~= all);
    out
}

/// The sign in front of a build log line whose level, in lower case, is
/// `lowered`.
pub fn level_marker(lowered: &str) -> (marker: String)
    ensures
        marker@ == marker_of(lowered@),
{
    let chars = crate::text::chars_of(lowered);
    let n: usize = chars.len();
    assert(chars@.subrange(0, n as int) =~= chars@);
    if crate::text::is_word(&chars, 0, n, "info") {
        "ℹ".to_owned()
    } else if crate::text::is_word(&chars, 0, n, "warning") {
        "⚠".to_owned()
    } else if crate::text::is_word(&chars, 0, n, "error") {
        "✗".to_owned()
    } else if crate::text::is_word(&chars, 0, n, "debug") {
        "🔍".to_owned()
    } else {
        "·".to_owned()
    }
}

/// The sign that stands for success or failure.
fn mark(success: bool) -> (out: &'static str)
    ensures
        out@ == outcome_mark(success),
{
    if success {
        "✓"
    } else {
        "✗"
    }
}

/// Adds the lines for the output of a command to `out`.
fn push_output(out: &mut Vec<String>, operation_id: &str, heading: &str, output: &Option<String>)
    ensures
        texts_of(final(out)@) == texts_of(old(out)@) + output_lines(
            operation_id@,
            heading@,
            crate::protocol::text_of(*output),
        ),
{
    match output {
        Some(text) => {
            if !is_blank(text.as_str()) {
                let mut head = String::from_str("  │ [");
                head.append(operation_id);
                head.append("] ");
                head.append(heading);
                out.push(head);
                let ghost with_head = texts_of(out@);
                let found = lines(text.as_str());
                let ghost all = texts_of(found@);
                for i in 0..found.len()
                    invariant
                        all == texts_of(found@),
                        texts_of(out@) == with_head + prefixed("  │  "@, all.take(i as int)),
                {
                    let ghost so_far = texts_of(out@);
                    let mut line = String::from_str("  │  ");
                    line.append(found[i].as_str());
                    out.push(line);
                    assert(texts_of(out@) =~= so_far + seq![line@]);
                }
            }
        },
        None => {},
    }
}

/// Adds a line that holds `label` and `value` to `out`, if there is a value.
fn push_optional(out: &mut Vec<String>, label: &str, value: &Option<String>)
    ensures
        texts_of(final(out)@) == texts_of(old(out)@) + optional_line(
            label@,
            crate::protocol::text_of(*value),
        ),
{
    match value {
        Some(text) => {
            let mut line = String::from_str(label);
            line.append(text.as_str());
            out.push(line);
        },
        None => {},
    }
}

/// The lines that show a build event.
///
/// The level of a log line decides its sign; it is put in lower case by
/// the rules of Unicode before it is looked up.
pub fn display_build_event(
    operation_id: &str,
    event_type: BuildEventType,
    message: &str,
    details: &BuildEventDetails,
) -> (out: Vec<String>)
    ensures
        texts_of(out@) == build_event_lines(operation_id@, event_type, message@, details@),
{
    let mut out: Vec<String> = Vec::new();
    match event_type {
        BuildEventType::Log => {
            let fallback = String::from_str("Info");
            let level: &String = match &details.level {
                Some(level) => level,
                None => &fallback,
            };
            let lowered = lowercase(level.as_str());
            let marker = level_marker(lowered.as_str());
            let mut line = String::from_str("  ");
            line.append(marker.as_str());
            line.append(" [");
            line.append(level.as_str());
            line.append("] ");
            line.append(message);
            out.push(line);
        },
        BuildEventType::Progress => {
            let mut line = String::from_str("  → [");
            line.append(operation_id);
            match &details.percent_complete {
                Some(percent) => {
                    let fallback = String::from_str("In Progress");
                    let status: &String = match &details.status {
                        Some(status) => status,
                        None => &fallback,
                    };
                    let wide = pad_left(percent.as_str(), 5);
                    line.append("] ");
                    line.append(wide.as_str());
                    line.append("% - ");
                    line.append(message);
                    line.append(" (");
                    line.append(status.as_str());
                    line.append(")");
                },
                None => {
                    line.append("] Progress: ");
                    line.append(message);
                },
            }
            out.push(line);
        },
        BuildEventType::CommandStarted => {
            let args = match &details.args {
                Some(args) => join(args, " "),
                None => String::new(),
            };
            let mut line = String::from_str("  $ [");
            line.append(operation_id);
            line.append("] Running: ");
            line.append(message);
            line.append(" ");
            line.append(args.as_str());
            out.push(line);
        },
        BuildEventType::CommandOutput => {
            push_output(&mut out, operation_id, "Output:", &details.stdout);
            let silent = match &details.stderr {
                Some(text) => {
                    let chars = crate::text::chars_of(text.as_str());
                    let n: usize = chars.len();
                    assert(chars@.subrange(0, n as int) =~= chars@);
                    crate::text::is_word(&chars, 0, n, "Stderr not available from host function")
                },
                None => false,
            };
            if !silent {
                push_output(&mut out, operation_id, "Errors:", &details.stderr);
            }
        },
        BuildEventType::BuildComplete => {
            let success = match details.success {
                Some(success) => success,
                None => false,
            };
            let mut line = String::from_str("  ");
            line.append(mark(success));
            line.append(" [");
            line.append(operation_id);
            line.append("] Build complete: ");
            line.append(message);
            out.push(line);
            push_optional(&mut out, "  │  WASM file: ", &details.wasm_path);
            push_optional(&mut out, "  │  WASM hash: ", &details.wasm_hash);
            push_optional(&mut out, "  │  Error: ", &details.error);
        },
        BuildEventType::FileExtracted => {
            let mut line = String::from_str("  • [");
            line.append(operation_id);
            line.append("] Extracted: ");
            line.append(message);
            out.push(line);
        },
    }
    out
}

/// The lines that show a message.
pub fn display_message(message: &FrontendMessage) -> (out: Vec<String>)
    ensures
        texts_of(out@) == message_lines(message@),
{
    let mut out: Vec<String> = Vec::new();
    match message {
        FrontendMessage::Status { child_running, active_operations } => {
            out.push(String::from_str("Status:"));
            let mut running = String::from_str("  Child running: ");
            running.append(if *child_running {
                "true"
            } else {
                "false"
            });
            out.push(running);
            if active_operations.len() > 0 {
                out.push(String::from_str("  Active operations:"));
                let ghost all = summaries_of(active_operations@);
                let ghost start = texts_of(out@);
                for i in 0..active_operations.len()
                    invariant
                        all == summaries_of(active_operations@),
                        texts_of(out@) == start + all.take(i as int).map_values(
                            |operation: OperationSummaryView| operation_line(operation),
                        ),
                {
                    let ghost so_far = texts_of(out@);
                    let operation = &active_operations[i];
                    let mut line = String::from_str("    - ");
                    line.append(operation.operation_type.to_string().as_str());
                    line.append(" (");
                    line.append(operation.operation_id.as_str());
                    line.append(")");
                    out.push(line);
                    assert(texts_of(out@) =~= so_far + seq![line@]);
                }
            }
        },
        FrontendMessage::OperationStarted { operation_id, operation_type, description } => {
            let mut first = String::from_str("→ ");
            first.append(operation_type.to_string().as_str());
            first.append(" operation started: ");
            first.append(description.as_str());
            let mut second = String::from_str("  Operation ID: ");
            second.append(operation_id.as_str());
            out.push(first);
            out.push(second);
        },
        FrontendMessage::OperationProgress { operation_id, description, percent_complete } => {
            let mut line = String::from_str("  [");
            line.append(operation_id.as_str());
            line.append("] ");
            line.append(percent_complete.as_str());
            line.append("% - ");
            line.append(description.as_str());
            out.push(line);
        },
        FrontendMessage::OperationCompleted { operation_id, success, message } => {
            let mut line = String::from_str(mark(*success));
            line.append(" Operation ");
            line.append(operation_id.as_str());
            line.append(" complete: ");
            line.append(message.as_str());
            out.push(line);
        },
        FrontendMessage::ChildStarted { child_id } => {
            let mut line = String::from_str("✓ Child actor started: ");
            line.append(child_id.as_str());
            out.push(line);
        },
        FrontendMessage::ChildStopped { child_id } => {
            let mut line = String::from_str("✓ Child actor stopped: ");
            line.append(child_id.as_str());
            out.push(line);
        },
        FrontendMessage::Log { level, message } => {
            let mut line = String::from_str("[");
            line.append(level.as_str());
            line.append("] ");
            line.append(message.as_str());
            out.push(line);
        },
        FrontendMessage::Error { code, message } => {
            let mut line = String::from_str("Error ");
            line.append(code.as_str());
            line.append(": ");
            line.append(message.as_str());
            out.push(line);
        },
        FrontendMessage::BuildEvent { operation_id, event_type, message, details } => {
            out = display_build_event(
                operation_id.as_str(),
                *event_type,
                message.as_str(),
                details,
            );
        },
    }
    out
}

} // verus!
