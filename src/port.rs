//! Inspecting a port and ending the process that holds it.
//!
//! Each step is a function from what a tool handed back to what to print and,
//! for a kill, which process to end.
use crate::message::{err_line, message, messages_view, out_line, single, Message, MessageView, Stream};
use crate::text::{
    contains_text, join_lines, lines, lines_containing, lines_of, views, words, words_of,
};
use crate::tool::{decode_lossy, lossy_text, tool_call, Platform, ToolCall, ToolCallView, ToolOutput};
use vstd::prelude::*;

verus! {

/// The text that marks a port in the tools' listings: a colon, then the port.
pub open spec fn port_pattern(port: Seq<char>) -> Seq<char> {
    ":"@ + port
}

/// The call that lists what holds `port`.
pub open spec fn query_call_view(platform: Platform, port: Seq<char>) -> ToolCallView {
    match platform {
        Platform::Posix => ToolCallView { program: "lsof"@, args: seq!["-i"@, port_pattern(port)] },
        Platform::Windows => ToolCallView { program: "netstat"@, args: seq!["-ano"@] },
    }
}

/// The call that forcibly ends the process `pid`.
pub open spec fn terminate_call_view(platform: Platform, pid: Seq<char>) -> ToolCallView {
    match platform {
        Platform::Posix => ToolCallView { program: "kill"@, args: seq!["-9"@, pid] },
        Platform::Windows => ToolCallView {
            program: "taskkill"@,
            args: seq!["/F"@, "/PID"@, pid],
        },
    }
}

/// The lines of a connection listing that name `port`.
pub open spec fn port_lines(listing: Seq<char>, port: Seq<char>) -> Seq<Seq<char>> {
    lines_containing(lines_of(listing), port_pattern(port))
}

/// A successful query found no process on `port`.
pub open spec fn no_process(platform: Platform, port: Seq<char>, listing: Seq<char>) -> bool {
    match platform {
        Platform::Posix => listing.len() == 0,
        Platform::Windows => port_lines(listing, port).len() == 0,
    }
}

/// What a successful query shows of the processes on `port`.
pub open spec fn shown(platform: Platform, port: Seq<char>, listing: Seq<char>) -> Seq<char> {
    match platform {
        Platform::Posix => listing,
        Platform::Windows => join_lines(port_lines(listing, port)),
    }
}

/// The process that a successful query names first, if any: on Posix the
/// second word of the second line, on Windows the last word of the first line
/// that names the port.
pub open spec fn pid_of(platform: Platform, port: Seq<char>, listing: Seq<char>) -> Option<
    Seq<char>,
> {
    match platform {
        Platform::Posix => {
            let ls = lines_of(listing);
            if ls.len() > 1 && words_of(ls[1]).len() > 1 {
                Some(words_of(ls[1])[1])
            } else {
                None
            }
        },
        Platform::Windows => {
            let ms = port_lines(listing, port);
            if ms.len() > 0 && words_of(ms[0]).len() > 0 {
                Some(words_of(ms[0]).last())
            } else {
                None
            }
        },
    }
}

/// The report that no process holds `port`.
pub open spec fn no_process_line(port: Seq<char>) -> MessageView {
    out_line("No process is using port "@ + port)
}

/// The report of the processes found on `port`.
pub open spec fn found_line(port: Seq<char>, found: Seq<char>) -> MessageView {
    out_line("Processes using port "@ + port + ":\n"@ + found)
}

/// The report of a failed query.
pub open spec fn query_error_line(err: Seq<char>) -> MessageView {
    err_line("Error: "@ + err)
}

/// The notice printed before ending process `pid`.
pub open spec fn kill_notice_line(pid: Seq<char>) -> MessageView {
    out_line("Killing process with PID: "@ + pid)
}

/// What inspecting `port` prints, given whether the query succeeded and the
/// text of its two streams.
pub open spec fn inspect_view(
    platform: Platform,
    port: Seq<char>,
    success: bool,
    listing: Seq<char>,
    err: Seq<char>,
) -> Seq<MessageView> {
    if !success {
        seq![query_error_line(err)]
    } else if no_process(platform, port, listing) {
        seq![no_process_line(port)]
    } else {
        seq![found_line(port, shown(platform, port, listing))]
    }
}

/// The next step of a kill: print and stop, or end a process.
#[derive(Clone, Debug, PartialEq, Eq)]
pub enum KillPlan {
    /// Print these messages; nothing is ended.
    Report(Vec<Message>),
    /// Print `notice`, then run the termination tool on `pid`.
    Terminate { pid: String, notice: Message },
}

/// The model of a [`KillPlan`].
pub enum KillPlanView {
    Report(Seq<MessageView>),
    Terminate { pid: Seq<char>, notice: MessageView },
}

impl View for KillPlan {
    type V = KillPlanView;

    open spec fn view(&self) -> KillPlanView {
        match self {
            KillPlan::Report(ms) => KillPlanView::Report(messages_view(ms@)),
            KillPlan::Terminate { pid, notice } => KillPlanView::Terminate {
                pid: pid@,
                notice: notice@,
            },
        }
    }
}

/// What a kill on `port` does after the query.
pub open spec fn kill_plan_view(
    platform: Platform,
    port: Seq<char>,
    success: bool,
    listing: Seq<char>,
    err: Seq<char>,
) -> KillPlanView {
    if !success {
        KillPlanView::Report(seq![query_error_line(err)])
    } else if no_process(platform, port, listing) {
        KillPlanView::Report(seq![no_process_line(port)])
    } else {
        match pid_of(platform, port, listing) {
            Some(pid) => KillPlanView::Terminate { pid, notice: kill_notice_line(pid) },
            None => KillPlanView::Report(seq![]),
        }
    }
}

/// What a kill prints once the termination tool on `pid` has run.
pub open spec fn kill_outcome_view(pid: Seq<char>, success: bool, err: Seq<char>) -> MessageView {
    if success {
        out_line("Successfully killed process "@ + pid)
    } else {
        err_line("Failed to kill process "@ + pid + ": "@ + err)
    }
}

/// The text `":" + port`.
fn pattern_of(port: &str) -> (r: String)
    ensures
        r@ == port_pattern(port@),
{
    String::from_str(":").concat(port)
}

/// The call that lists what holds `port` on `platform`.
pub fn query_call(platform: Platform, port: &str) -> (r: ToolCall)
    ensures
        r@ == query_call_view(platform, port@),
{
    let mut args: Vec<String> = Vec::new();
    match platform {
        Platform::Posix => {
            args.push(String::from_str("-i"));
            args.push(pattern_of(port));
            let r = tool_call("lsof", args);
            assert(r@.args =~= seq!["-i"@, port_pattern(port@)]);
            r
        },
        Platform::Windows => {
            args.push(String::from_str("-ano"));
            let r = tool_call("netstat", args);
            assert(r@.args =~= seq!["-ano"@]);
            r
        },
    }
}

/// The call that forcibly ends process `pid` on `platform`.
pub fn terminate_call(platform: Platform, pid: &str) -> (r: ToolCall)
    ensures
        r@ == terminate_call_view(platform, pid@),
{
    let mut args: Vec<String> = Vec::new();
    match platform {
        Platform::Posix => {
            args.push(String::from_str("-9"));
            args.push(String::from_str(pid));
            let r = tool_call("kill", args);
            assert(r@.args =~= seq!["-9"@, pid@]);
            r
        },
        Platform::Windows => {
            args.push(String::from_str("/F"));
            args.push(String::from_str("/PID"));
            args.push(String::from_str(pid));
            let r = tool_call("taskkill", args);
            assert(r@.args =~= seq!["/F"@, "/PID"@, pid@]);
            r
        },
    }
}

/// The lines of the connection listing `listing` that name `port`, in order.
pub fn matching_lines(listing: &str, port: &str) -> (r: Vec<String>)
    ensures
        views(r@) == port_lines(listing@, port@),
{
    let all = lines(listing);
    let pattern = pattern_of(port);
    let mut r: Vec<String> = Vec::new();
    let mut k: usize = 0;
    while k < all.len()
        invariant
            k <= all.len(),
            views(all@) == lines_of(listing@),
            pattern@ == port_pattern(port@),
            views(r@) == lines_containing(views(all@).take(k as int), pattern@),
        decreases all.len() - k,
    {
        let ghost seen = views(all@).take(k as int);
        assert(views(all@).take(k + 1).drop_last() == seen);
        assert(views(all@).take(k + 1).last() == all@[k as int]@);
        if contains_text(all[k].as_str(), pattern.as_str()) {
            let ghost prev = r@;
            r.push(all[k].clone());
            assert(views(r@) =~= views(prev).push(all@[k as int]@));
        }
        k = k + 1;
    }
    assert(views(all@).take(all.len() as int) == views(all@));
    r
}

/// `ls` with a line feed between each two.
pub fn join(ls: &Vec<String>) -> (r: String)
    ensures
        r@ == join_lines(views(ls@)),
{
    let mut r = String::new();
    let mut k: usize = 0;
    while k < ls.len()
        invariant
            k <= ls.len(),
            r@ == join_lines(views(ls@).take(k as int)),
        decreases ls.len() - k,
    {
        let ghost seen = views(ls@).take(k + 1);
        assert(seen.drop_last() == views(ls@).take(k as int));
        if k > 0 {
            r.append("\n");
        } else {
            assert(seen =~= seq![ls@[0]@]);
        }
        r.append(ls[k].as_str());
        k = k + 1;
    }
    assert(views(ls@).take(ls.len() as int) == views(ls@));
    r
}

/// The process that a successful query of `port` names first, if any.
pub fn extract_pid(platform: Platform, port: &str, listing: &str) -> (r: Option<String>)
    ensures
        match r {
            Some(p) => pid_of(platform, port@, listing@) == Some(p@),
            None => pid_of(platform, port@, listing@) is None,
        },
{
    match platform {
        Platform::Posix => {
            let ls = lines(listing);
            assert(views(ls@).len() == ls@.len());
            if ls.len() > 1 {
                assert(views(ls@)[1] == ls@[1]@);
                let ws = words(ls[1].as_str());
                assert(views(ws@).len() == ws@.len());
                if ws.len() > 1 {
                    assert(views(ws@)[1] == ws@[1]@);
                    return Some(ws[1].clone());
                }
            }
            None
        },
        Platform::Windows => {
            let ms = matching_lines(listing, port);
            assert(views(ms@).len() == ms@.len());
            if ms.len() > 0 {
                assert(views(ms@)[0] == ms@[0]@);
                let ws = words(ms[0].as_str());
                assert(views(ws@).len() == ws@.len());
                if ws.len() > 0 {
                    let last = ws.len() - 1;
                    assert(views(ws@)[last as int] == ws@[last as int]@);
                    return Some(ws[last].clone());
                }
            }
            None
        },
    }
}

/// Whether a successful query of `port` found no process.
fn finds_nothing(platform: Platform, port: &str, listing: &str) -> (r: bool)
    ensures
        r == no_process(platform, port@, listing@),
{
    match platform {
        Platform::Posix => listing.unicode_len() == 0,
        Platform::Windows => {
            let ms = matching_lines(listing, port);
            assert(views(ms@).len() == ms@.len());
            ms.len() == 0
        },
    }
}

/// The report that no process holds `port`.
fn no_process_message(port: &str) -> (r: Message)
    ensures
        r@ == no_process_line(port@),
{
    message(Stream::Stdout, String::from_str("No process is using port ").concat(port))
}

/// The report of a failed query whose error text is `err`.
fn query_error_message(err: &str) -> (r: Message)
    ensures
        r@ == query_error_line(err@),
{
    message(Stream::Stderr, String::from_str("Error: ").concat(err))
}

/// The notice printed before ending process `pid`.
pub fn kill_notice(pid: &str) -> (r: Message)
    ensures
        r@ == kill_notice_line(pid@),
{
    message(Stream::Stdout, String::from_str("Killing process with PID: ").concat(pid))
}

/// What inspecting `port` prints, given whether the query succeeded and the
/// text it wrote to its two streams.
pub fn inspect_text(platform: Platform, port: &str, success: bool, listing: &str, err: &str) -> (r:
    Vec<Message>)
    ensures
        messages_view(r@) == inspect_view(platform, port@, success, listing@, err@),
{
    if !success {
        return single(query_error_message(err));
    }
    if finds_nothing(platform, port, listing) {
        return single(no_process_message(port));
    }
    let found = match platform {
        Platform::Posix => String::from_str(listing),
        Platform::Windows => join(&matching_lines(listing, port)),
    };
    let text = String::from_str("Processes using port ").concat(port).concat(":\n").concat(
        found.as_str(),
    );
    single(message(Stream::Stdout, text))
}

/// What inspecting `port` prints, given the query tool's output.
pub fn inspect_report(platform: Platform, port: &str, out: &ToolOutput) -> (r: Vec<Message>)
    ensures
        messages_view(r@) == inspect_view(
            platform,
            port@,
            out.success,
            lossy_text(out.stdout@),
            lossy_text(out.stderr@),
        ),
{
    let listing = decode_lossy(&out.stdout);
    let err = decode_lossy(&out.stderr);
    inspect_text(platform, port, out.success, listing.as_str(), err.as_str())
}

/// The next step of a kill on `port`, given whether the query succeeded and
/// the text it wrote to its two streams.
pub fn kill_plan_text(platform: Platform, port: &str, success: bool, listing: &str, err: &str) -> (r:
    KillPlan)
    ensures
        r@ == kill_plan_view(platform, port@, success, listing@, err@),
{
    if !success {
        return KillPlan::Report(single(query_error_message(err)));
    }
    if finds_nothing(platform, port, listing) {
        return KillPlan::Report(single(no_process_message(port)));
    }
    match extract_pid(platform, port, listing) {
        Some(pid) => {
            let notice = kill_notice(pid.as_str());
            KillPlan::Terminate { pid, notice }
        },
        None => {
            let none: Vec<Message> = Vec::new();
            assert(messages_view(none@) =~= seq![]);
            KillPlan::Report(none)
        },
    }
}

/// The next step of a kill on `port`, given the query tool's output.
pub fn kill_plan(platform: Platform, port: &str, out: &ToolOutput) -> (r: KillPlan)
    ensures
        r@ == kill_plan_view(
            platform,
            port@,
            out.success,
            lossy_text(out.stdout@),
            lossy_text(out.stderr@),
        ),
{
    let listing = decode_lossy(&out.stdout);
    let err = decode_lossy(&out.stderr);
    kill_plan_text(platform, port, out.success, listing.as_str(), err.as_str())
}

/// What a kill prints once the termination tool on `pid` has run, given
/// whether it succeeded and the text it wrote to standard error.
pub fn kill_outcome_text(pid: &str, success: bool, err: &str) -> (r: Message)
    ensures
        r@ == kill_outcome_view(pid@, success, err@),
{
    if success {
        message(Stream::Stdout, String::from_str("Successfully killed process ").concat(pid))
    } else {
        message(
            Stream::Stderr,
            String::from_str("Failed to kill process ").concat(pid).concat(": ").concat(err),
        )
    }
}

/// What a kill prints once the termination tool on `pid` has run, given its
/// output.
pub fn kill_outcome(pid: &str, out: &ToolOutput) -> (r: Message)
    ensures
        r@ == kill_outcome_view(pid@, out.success, lossy_text(out.stderr@)),
{
    let err = decode_lossy(&out.stderr);
    kill_outcome_text(pid, out.success, err.as_str())
}

/// A port that no process holds: inspecting it prints the one line
/// "No process is using port P", and a kill prints that same line and ends no
/// process.
pub proof fn lemma_free_port_reported_once(
    platform: Platform,
    port: Seq<char>,
    listing: Seq<char>,
    err: Seq<char>,
)
    requires
        no_process(platform, port, listing),
    ensures
        inspect_view(platform, port, true, listing, err) == seq![no_process_line(port)],
        kill_plan_view(platform, port, true, listing, err) == KillPlanView::Report(
            seq![no_process_line(port)],
        ),
{
}

/// Inspecting a port twice over the same query output prints the same both
/// times: what is printed depends on that output alone.
pub proof fn lemma_inspect_repeatable(platform: Platform, port: Seq<char>, a: ToolOutput, b: ToolOutput)
    requires
        a.success == b.success,
        a.stdout@ == b.stdout@,
        a.stderr@ == b.stderr@,
    ensures
        inspect_view(platform, port, a.success, lossy_text(a.stdout@), lossy_text(a.stderr@))
            == inspect_view(platform, port, b.success, lossy_text(b.stdout@), lossy_text(b.stderr@)),
{
}

} // verus!
