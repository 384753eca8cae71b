use portkill::message::{Message, Stream};
use portkill::port::{
    extract_pid, inspect_report, inspect_text, join, kill_notice, kill_outcome, kill_outcome_text,
    kill_plan, kill_plan_text, matching_lines, query_call, terminate_call, KillPlan,
};
use portkill::tool::{Platform, ToolCall, ToolOutput};

const LSOF_8080: &str = "COMMAND   PID USER   FD   TYPE DEVICE SIZE/OFF NODE NAME\n\
node    12345 user   23u  IPv4 0x1234      0t0  TCP *:8080 (LISTEN)\n";

const NETSTAT: &str = "\r\nActive Connections\r\n\r\n  \
Proto  Local Address          Foreign Address        State           PID\r\n  \
TCP    0.0.0.0:135            0.0.0.0:0              LISTENING       1100\r\n  \
TCP    0.0.0.0:8080           0.0.0.0:0              LISTENING       4321\r\n  \
TCP    127.0.0.1:50000        127.0.0.1:8080         ESTABLISHED     999\r\n";

fn out(text: &str) -> Message {
    Message { stream: Stream::Stdout, text: text.to_string() }
}

fn err(text: &str) -> Message {
    Message { stream: Stream::Stderr, text: text.to_string() }
}

fn call(program: &str, args: &[&str]) -> ToolCall {
    ToolCall { program: program.to_string(), args: args.iter().map(|a| a.to_string()).collect() }
}

fn ran(success: bool, stdout: &str, stderr: &str) -> ToolOutput {
    ToolOutput { success, stdout: stdout.as_bytes().to_vec(), stderr: stderr.as_bytes().to_vec() }
}

#[test]
fn posix_query_lists_sockets_on_the_port() {
    assert_eq!(query_call(Platform::Posix, "8080"), call("lsof", &["-i", ":8080"]));
}

#[test]
fn windows_query_lists_all_connections() {
    assert_eq!(query_call(Platform::Windows, "8080"), call("netstat", &["-ano"]));
}

#[test]
fn posix_inspect_prints_listing_under_header() {
    let ms = inspect_text(Platform::Posix, "8080", true, LSOF_8080, "");
    assert_eq!(ms, vec![out(&format!("Processes using port 8080:\n{}", LSOF_8080))]);
}

#[test]
fn posix_kill_ends_second_word_of_second_line() {
    let plan = kill_plan_text(Platform::Posix, "8080", true, LSOF_8080, "");
    assert_eq!(
        plan,
        KillPlan::Terminate {
            pid: "12345".to_string(),
            notice: out("Killing process with PID: 12345"),
        }
    );
    assert_eq!(terminate_call(Platform::Posix, "12345"), call("kill", &["-9", "12345"]));
}

#[test]
fn windows_inspect_prints_lines_naming_the_port() {
    let ms = inspect_text(Platform::Windows, "8080", true, NETSTAT, "");
    assert_eq!(
        ms,
        vec![out(
            "Processes using port 8080:\n  \
TCP    0.0.0.0:8080           0.0.0.0:0              LISTENING       4321\n  \
TCP    127.0.0.1:50000        127.0.0.1:8080         ESTABLISHED     999"
        )]
    );
}

#[test]
fn windows_kill_ends_last_word_of_first_match() {
    let plan = kill_plan_text(Platform::Windows, "8080", true, NETSTAT, "");
    assert_eq!(
        plan,
        KillPlan::Terminate { pid: "4321".to_string(), notice: out("Killing process with PID: 4321") }
    );
    assert_eq!(
        terminate_call(Platform::Windows, "4321"),
        call("taskkill", &["/F", "/PID", "4321"])
    );
}

#[test]
fn failed_kill_reports_tool_error() {
    let m = kill_outcome(
        "4321",
        &ToolOutput { success: false, stdout: vec![], stderr: b"Access is denied.".to_vec() },
    );
    assert_eq!(m, err("Failed to kill process 4321: Access is denied."));
}

#[test]
fn successful_kill_is_confirmed() {
    assert_eq!(kill_outcome("12345", &ran(true, "", "")), out("Successfully killed process 12345"));
    assert_eq!(
        kill_outcome_text("12345", false, "No such process"),
        err("Failed to kill process 12345: No such process")
    );
}

#[test]
fn free_port_is_reported_once_on_posix() {
    let ms = inspect_text(Platform::Posix, "9999", true, "", "");
    assert_eq!(ms, vec![out("No process is using port 9999")]);
    let plan = kill_plan_text(Platform::Posix, "9999", true, "", "");
    assert_eq!(plan, KillPlan::Report(vec![out("No process is using port 9999")]));
}

#[test]
fn free_port_is_reported_once_on_windows() {
    let ms = inspect_text(Platform::Windows, "9999", true, NETSTAT, "");
    assert_eq!(ms, vec![out("No process is using port 9999")]);
    let plan = kill_plan_text(Platform::Windows, "9999", true, NETSTAT, "");
    assert_eq!(plan, KillPlan::Report(vec![out("No process is using port 9999")]));
}

#[test]
fn port_pattern_needs_the_colon() {
    assert!(matching_lines("TCP 0.0.0.0:18080 LISTENING 7", "8080").is_empty());
    assert!(matching_lines("PID 8080 is here", "8080").is_empty());
    assert_eq!(matching_lines("a :8080 b\nc\nd:8080", "808"), vec!["a :8080 b", "d:8080"]);
}

#[test]
fn inspect_twice_prints_the_same() {
    let o = ran(true, NETSTAT, "");
    let first = inspect_report(Platform::Windows, "8080", &o);
    let second = inspect_report(Platform::Windows, "8080", &o);
    assert_eq!(first, second);
    let o = ran(true, LSOF_8080, "");
    assert_eq!(
        inspect_report(Platform::Posix, "8080", &o),
        inspect_report(Platform::Posix, "8080", &o)
    );
}

#[test]
fn failed_query_prints_its_error() {
    let ms = inspect_text(Platform::Posix, "8080", false, "", "lsof: unknown option");
    assert_eq!(ms, vec![err("Error: lsof: unknown option")]);
    let plan = kill_plan(Platform::Windows, "8080", &ran(false, "", "netstat failed"));
    assert_eq!(plan, KillPlan::Report(vec![err("Error: netstat failed")]));
}

#[test]
fn posix_single_line_listing_kills_nothing_silently() {
    let plan = kill_plan_text(Platform::Posix, "8080", true, "COMMAND PID USER\n", "");
    assert_eq!(plan, KillPlan::Report(vec![]));
    let plan = kill_plan_text(Platform::Posix, "8080", true, "HEADER\nonlyword\n", "");
    assert_eq!(plan, KillPlan::Report(vec![]));
}

#[test]
fn pid_extraction_by_platform() {
    assert_eq!(extract_pid(Platform::Posix, "8080", LSOF_8080), Some("12345".to_string()));
    assert_eq!(extract_pid(Platform::Windows, "8080", NETSTAT), Some("4321".to_string()));
    assert_eq!(extract_pid(Platform::Windows, "7", NETSTAT), None);
    assert_eq!(extract_pid(Platform::Posix, "8080", ""), None);
}

#[test]
fn query_output_bytes_are_decoded() {
    let o = ToolOutput { success: true, stdout: "h\u{e9}\n".as_bytes().to_vec(), stderr: vec![] };
    assert_eq!(inspect_report(Platform::Posix, "1", &o), vec![out("Processes using port 1:\nh\u{e9}\n")]);
    let bad = ToolOutput { success: false, stdout: vec![], stderr: vec![b'x', 0xFF] };
    assert_eq!(inspect_report(Platform::Posix, "1", &bad), vec![err("Error: x\u{FFFD}")]);
}

#[test]
fn kill_plan_decodes_the_listing() {
    let plan = kill_plan(Platform::Posix, "8080", &ran(true, LSOF_8080, ""));
    assert_eq!(
        plan,
        KillPlan::Terminate { pid: "12345".to_string(), notice: kill_notice("12345") }
    );
}

#[test]
fn lines_are_joined_with_line_feeds() {
    assert_eq!(join(&vec!["a".to_string(), "b".to_string()]), "a\nb");
    assert_eq!(join(&vec![]), "");
}
