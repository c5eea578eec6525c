//! The commands that talk to the daemon.
//!
//! What a command does next is a function of what has happened so far. It ends
//! with a report: what to print, and how the program ends.

use vstd::prelude::*;

use crate::check::ShownTimes;
use crate::constants;
use crate::error;
use crate::error::{MainError, MainErrorView, VCSError};
use crate::exit_codes;
use crate::listing;
use crate::mq_protocol;
use crate::mq_protocol::{MQRequest, MQRequestView, MQResponse, MQResponseView, MQRunInfo, RunId};
use crate::text;
use crate::vcs::VCS;

verus! {

/// How a command ends.
#[derive(Debug)]
pub enum End {
    Success,
    Fail(MainError),
    /// End the program with this exit code.
    Exit(i32),
}

/// What an [`End`] holds.
pub enum EndView {
    Success,
    Fail(MainErrorView),
    Exit(i32),
}

impl View for End {
    type V = EndView;

    open spec fn view(&self) -> EndView {
        match *self {
            End::Success => EndView::Success,
            End::Fail(e) => EndView::Fail(e@),
            End::Exit(code) => EndView::Exit(code),
        }
    }
}

/// What a command says, and how it ends.
#[derive(Debug)]
pub struct Report {
    /// Lines for standard output.
    pub out: Vec<String>,
    /// Lines for standard error.
    pub err: Vec<String>,
    pub end: End,
}

/// What a [`Report`] holds.
pub struct ReportView {
    pub out: Seq<Seq<char>>,
    pub err: Seq<Seq<char>>,
    pub end: EndView,
}

impl View for Report {
    type V = ReportView;

    open spec fn view(&self) -> ReportView {
        ReportView { out: text::texts(self.out@), err: text::texts(self.err@), end: self.end@ }
    }
}

/// A report that says nothing.
pub open spec fn silent(end: EndView) -> ReportView {
    ReportView { out: seq![], err: seq![], end }
}

/// A report of one line on standard output.
pub open spec fn said(line: Seq<char>) -> ReportView {
    ReportView { out: seq![line], err: seq![], end: EndView::Success }
}

/// A report of one line on standard error.
pub open spec fn complained(line: Seq<char>, end: EndView) -> ReportView {
    ReportView { out: seq![], err: seq![line], end }
}

fn say_nothing(end: End) -> (res: Report)
    ensures
        res@ == silent(end@),
{
    let res = Report { out: Vec::new(), err: Vec::new(), end };
    assert(res@.out =~= seq![]);
    assert(res@.err =~= seq![]);
    res
}

fn say(line: String) -> (res: Report)
    ensures
        res@ == said(line@),
{
    let mut out: Vec<String> = Vec::new();
    out.push(line);
    let res = Report { out, err: Vec::new(), end: End::Success };
    assert(res@.out =~= seq![line@]);
    assert(res@.err =~= seq![]);
    res
}

fn complain(line: String, end: End) -> (res: Report)
    ensures
        res@ == complained(line@, end@),
{
    let mut err: Vec<String> = Vec::new();
    err.push(line);
    let res = Report { out: Vec::new(), err, end };
    assert(res@.out =~= seq![]);
    assert(res@.err =~= seq![line@]);
    res
}

fn say_lines(out: Vec<String>) -> (res: Report)
    ensures
        res@ == (ReportView { out: text::texts(out@), err: seq![], end: EndView::Success }),
{
    let res = Report { out, err: Vec::new(), end: End::Success };
    assert(res@.err =~= seq![]);
    res
}

/// The report about an answer that says that something went wrong, or that
/// does not belong to the request.
pub open spec fn refused(response: MQResponseView, error: MainErrorView) -> ReportView {
    match response {
        MQResponseView::Error(e) => complained("Error: "@ + e, EndView::Fail(error)),
        _ => complained("Unexpected response from daemon"@, EndView::Fail(error)),
    }
}

fn refuse(response: &MQResponse, error: MainError) -> (res: Report)
    ensures
        res@ == refused(response@, error@),
{
    match response {
        MQResponse::Error(e) => complain(
            String::from_str("Error: ").concat(e.as_str()),
            End::Fail(error),
        ),
        _ => complain("Unexpected response from daemon".to_owned(), End::Fail(error)),
    }
}

// ---------------------------------------------------------------------------
// Asking the daemon

/// What has happened while the daemon is asked.
#[derive(Debug)]
pub struct QueryHistory {
    /// The daemon's runtime directory.
    pub runtime_dir: Option<Result<Option<String>, MainError>>,
    /// Its answer.
    pub response: Option<Result<MQResponse, String>>,
}

/// What a command does next.
#[derive(Debug)]
pub enum ClientStep {
    FindRuntimeDir,
    /// Print the line, where there is one, as an error, and send the request.
    Send { socket: String, request: MQRequest, line: Option<String> },
    /// Read the daemon's PID file.
    ReadPid { path: String },
    Done(Report),
}

/// What a [`ClientStep`] holds.
pub enum ClientView {
    FindRuntimeDir,
    Send { socket: Seq<char>, request: MQRequestView, line: Option<Seq<char>> },
    ReadPid { path: Seq<char> },
    Done(ReportView),
}

impl View for ClientStep {
    type V = ClientView;

    open spec fn view(&self) -> ClientView {
        match *self {
            ClientStep::FindRuntimeDir => ClientView::FindRuntimeDir,
            ClientStep::Send { socket, request, line } => ClientView::Send {
                socket: socket@,
                request: request@,
                line: line.deep_view(),
            },
            ClientStep::ReadPid { path } => ClientView::ReadPid { path: path@ },
            ClientStep::Done(report) => ClientView::Done(report@),
        }
    }
}

/// Where the daemon listens.
pub open spec fn socket_in(dir: Seq<char>) -> Seq<char> {
    text::joined_path(dir, constants::MQ_SOCK_FILENAME@)
}

/// What a command does until it has an answer, and with the answer.
pub open spec fn query_step(
    request: MQRequestView,
    line: Option<Seq<char>>,
    h: QueryHistory,
    answered: ReportView,
) -> ClientView {
    match h.runtime_dir {
        None => ClientView::FindRuntimeDir,
        Some(Err(e)) => ClientView::Done(silent(EndView::Fail(e@))),
        Some(Ok(None)) => ClientView::Done(silent(EndView::Fail(MainErrorView::DaemonNotRunning))),
        Some(Ok(Some(dir))) => match h.response {
            None => ClientView::Send { socket: socket_in(dir@), request, line },
            Some(Err(_)) => ClientView::Done(
                silent(EndView::Fail(MainErrorView::CommunicationFailed)),
            ),
            Some(Ok(_)) => ClientView::Done(answered),
        },
    }
}

/// The answer that has come, if any.
pub open spec fn answer(h: QueryHistory) -> Option<MQResponseView> {
    match (h.runtime_dir, h.response) {
        (Some(Ok(Some(_))), Some(Ok(response))) => Some(response@),
        _ => None,
    }
}

/// The answer, or what to do to get it.
fn query<'a>(request: MQRequest, line: Option<String>, h: &'a QueryHistory) -> (res: Result<
    &'a MQResponse,
    ClientStep,
>)
    ensures
        match res {
            Ok(response) => answer(*h) == Some(response@),
            Err(step) => answer(*h) is None && forall|answered: ReportView| #[trigger]
                query_step(request@, line.deep_view(), *h, answered) == step@,
        },
{
    let dir = match &h.runtime_dir {
        None => return Err(ClientStep::FindRuntimeDir),
        Some(Err(e)) => return Err(ClientStep::Done(say_nothing(End::Fail(e.clone())))),
        Some(Ok(None)) => {
            return Err(ClientStep::Done(say_nothing(End::Fail(MainError::DaemonNotRunning))));
        },
        Some(Ok(Some(dir))) => dir,
    };
    match &h.response {
        None => Err(
            ClientStep::Send {
                socket: text::join_path(dir.as_str(), constants::MQ_SOCK_FILENAME),
                request,
                line,
            },
        ),
        Some(Err(_)) => Err(
            ClientStep::Done(say_nothing(End::Fail(MainError::CommunicationFailed))),
        ),
        Some(Ok(response)) => Ok(response),
    }
}

// ---------------------------------------------------------------------------
// Submitting

/// The candidate that is submitted where none was named.
pub open spec fn default_candidate_text(vcs: VCS) -> Seq<char> {
    match vcs {
        VCS::Jujutsu => "@-"@,
        VCS::Git => "HEAD"@,
    }
}

/// The candidate that is submitted where none was named.
pub fn default_candidate(vcs: &VCS) -> (res: String)
    ensures
        res@ == default_candidate_text(*vcs),
{
    match vcs {
        VCS::Jujutsu => "@-".to_owned(),
        VCS::Git => "HEAD".to_owned(),
    }
}

/// What has happened while a candidate is submitted.
#[derive(Debug)]
pub struct AddHistory {
    /// The version control system of the project.
    pub vcs: Option<Result<VCS, VCSError>>,
    /// The daemon's runtime directory.
    pub runtime_dir: Option<Result<Option<String>, MainError>>,
    /// The runtime directory of a daemon that was started for this.
    pub started: Option<Result<Option<String>, MainError>>,
    /// The daemon's answer.
    pub response: Option<Result<MQResponse, String>>,
}

/// What submitting does next.
#[derive(Debug)]
pub enum AddStep {
    DetectVcs,
    FindRuntimeDir,
    AutoStart,
    Send { socket: String, request: MQRequest },
    /// Report, and then wait for the run if there is one to wait for.
    Done { report: Report, wait_for: Option<RunId> },
}

/// What an [`AddStep`] holds.
pub enum AddView {
    DetectVcs,
    FindRuntimeDir,
    AutoStart,
    Send { socket: Seq<char>, request: MQRequestView },
    Done { report: ReportView, wait_for: Option<RunId> },
}

impl View for AddStep {
    type V = AddView;

    open spec fn view(&self) -> AddView {
        match *self {
            AddStep::DetectVcs => AddView::DetectVcs,
            AddStep::FindRuntimeDir => AddView::FindRuntimeDir,
            AddStep::AutoStart => AddView::AutoStart,
            AddStep::Send { socket, request } => AddView::Send {
                socket: socket@,
                request: request@,
            },
            AddStep::Done { report, wait_for } => AddView::Done { report: report@, wait_for },
        }
    }
}

/// How submitting ends where nothing was submitted.
pub open spec fn not_added(report: ReportView) -> AddView {
    AddView::Done { report, wait_for: None }
}

/// What is said when there is no daemon and none can be started.
pub open spec fn start_hints() -> ReportView {
    ReportView {
        out: seq![],
        err: seq!["Start it with: selfci mq start --base-branch <branch>"@].push(
            "Or set mq.base-branch in .config/selfci/ci.yaml for auto-start"@,
        ),
        end: EndView::Fail(MainErrorView::DaemonNotRunning),
    }
}

/// What is said about a run that was submitted.
pub open spec fn added_line(run_id: RunId, no_merge: bool) -> Seq<char> {
    if no_merge {
        "Added to merge queue with run ID: "@ + text::decimal(run_id.0 as nat)
            + " (no-merge mode)"@
    } else {
        "Added to merge queue with run ID: "@ + text::decimal(run_id.0 as nat)
    }
}

/// What follows once the daemon's runtime directory is known.
pub open spec fn submit_step(
    dir: Seq<char>,
    candidate: Seq<char>,
    no_merge: bool,
    wait: bool,
    h: AddHistory,
) -> AddView {
    match h.response {
        None => AddView::Send {
            socket: socket_in(dir),
            request: MQRequestView::AddCandidate { candidate, no_merge },
        },
        Some(Err(_)) => not_added(silent(EndView::Fail(MainErrorView::CommunicationFailed))),
        Some(Ok(response)) => match response@ {
            MQResponseView::CandidateAdded { run_id } => AddView::Done {
                report: said(added_line(run_id, no_merge)),
                wait_for: if wait {
                    Some(run_id)
                } else {
                    None
                },
            },
            other => not_added(refused(other, MainErrorView::CheckFailed)),
        },
    }
}

/// What follows once the candidate is known: the daemon is found, else started.
pub open spec fn daemon_step(
    candidate: Seq<char>,
    no_merge: bool,
    wait: bool,
    h: AddHistory,
) -> AddView {
    match h.runtime_dir {
        None => AddView::FindRuntimeDir,
        Some(Err(e)) => not_added(silent(EndView::Fail(e@))),
        Some(Ok(Some(dir))) => submit_step(dir@, candidate, no_merge, wait, h),
        Some(Ok(None)) => match h.started {
            None => AddView::AutoStart,
            Some(Err(e)) => not_added(silent(EndView::Fail(e@))),
            Some(Ok(None)) => not_added(start_hints()),
            Some(Ok(Some(dir))) => submit_step(dir@, candidate, no_merge, wait, h),
        },
    }
}

/// What submitting does next.
pub open spec fn add_step(
    candidate: Option<Seq<char>>,
    no_merge: bool,
    wait: bool,
    h: AddHistory,
) -> AddView {
    match candidate {
        Some(c) => daemon_step(c, no_merge, wait, h),
        None => match h.vcs {
            None => AddView::DetectVcs,
            Some(Err(e)) => not_added(silent(EndView::Fail(error::vcs_main_error(e)))),
            Some(Ok(vcs)) => daemon_step(default_candidate_text(vcs), no_merge, wait, h),
        },
    }
}

fn give_up(report: Report) -> (res: AddStep)
    ensures
        res@ == not_added(report@),
{
    AddStep::Done { report, wait_for: None }
}

fn hint_start() -> (res: Report)
    ensures
        res@ == start_hints(),
{
    let mut err: Vec<String> = Vec::new();
    err.push("Start it with: selfci mq start --base-branch <branch>".to_owned());
    err.push("Or set mq.base-branch in .config/selfci/ci.yaml for auto-start".to_owned());
    let res = Report { out: Vec::new(), err, end: End::Fail(MainError::DaemonNotRunning) };
    assert(res@.out =~= seq![]);
    assert(res@.err =~= start_hints().err);
    res
}

fn submit(dir: &String, candidate: String, no_merge: bool, wait: bool, h: &AddHistory) -> (res:
    AddStep)
    ensures
        res@ == submit_step(dir@, candidate@, no_merge, wait, *h),
{
    match &h.response {
        None => AddStep::Send {
            socket: text::join_path(dir.as_str(), constants::MQ_SOCK_FILENAME),
            request: MQRequest::AddCandidate { candidate, no_merge },
        },
        Some(Err(_)) => give_up(say_nothing(End::Fail(MainError::CommunicationFailed))),
        Some(Ok(response)) => match response {
            MQResponse::CandidateAdded { run_id } => {
                let line = String::from_str("Added to merge queue with run ID: ").concat(
                    run_id.display().as_str(),
                );
                let line = if no_merge {
                    line.concat(" (no-merge mode)")
                } else {
                    line
                };
                AddStep::Done {
                    report: say(line),
                    wait_for: if wait {
                        Some(*run_id)
                    } else {
                        None
                    },
                }
            },
            _ => give_up(refuse(response, MainError::CheckFailed)),
        },
    }
}

/// What submitting a candidate does next.
pub fn add_candidate(candidate: Option<&str>, no_merge: bool, wait: bool, h: &AddHistory) -> (res:
    AddStep)
    ensures
        res@ == add_step(candidate.deep_view(), no_merge, wait, *h),
{
    let candidate_text = match candidate {
        Some(c) => c.to_owned(),
        None => match &h.vcs {
            None => return AddStep::DetectVcs,
            Some(Err(e)) => return give_up(say_nothing(End::Fail(e.into_main()))),
            Some(Ok(vcs)) => default_candidate(vcs),
        },
    };
    match &h.runtime_dir {
        None => AddStep::FindRuntimeDir,
        Some(Err(e)) => give_up(say_nothing(End::Fail(e.clone()))),
        Some(Ok(Some(dir))) => submit(dir, candidate_text, no_merge, wait, h),
        Some(Ok(None)) => match &h.started {
            None => AddStep::AutoStart,
            Some(Err(e)) => give_up(say_nothing(End::Fail(e.clone()))),
            Some(Ok(None)) => give_up(hint_start()),
            Some(Ok(Some(dir))) => submit(dir, candidate_text, no_merge, wait, h),
        },
    }
}

// ---------------------------------------------------------------------------
// Listing

/// Whether the rows of the runs of an answer can be made.
pub open spec fn can_list(h: QueryHistory) -> bool {
    answer(h) matches Some(MQResponseView::RunList { runs }) ==> forall|i: int|
        0 <= i < runs.len() ==> listing::can_shorten((#[trigger] runs[i]).candidate.change_id)
}

/// What listing runs does next. How the rows of a list are laid out depends on
/// the terminal; that they are the rows of the runs in the answer does not.
pub fn list_runs(limit: Option<usize>, h: &QueryHistory) -> (res: ClientStep)
    requires
        can_list(*h),
    ensures
        match answer(*h) {
            Some(MQResponseView::RunList { runs }) => if runs.len() == 0 {
                res@ == ClientView::Done(said("No runs in queue"@))
            } else {
                &&& res@ matches ClientView::Done(report)
                &&& listing::shows_runs(report.out, runs)
                &&& report.err == Seq::<Seq<char>>::empty()
                &&& report.end == EndView::Success
            },
            Some(other) => res@ == ClientView::Done(refused(other, MainErrorView::CheckFailed)),
            None => res@ == query_step(
                MQRequestView::List { limit },
                None,
                *h,
                silent(EndView::Success),
            ),
        },
{
    let response = match query(MQRequest::List { limit }, None, h) {
        Ok(response) => response,
        Err(step) => return step,
    };
    match response {
        MQResponse::RunList { runs } => {
            proof {
                let views = mq_protocol::run_views(runs@);
                assert(answer(*h) == Some(MQResponseView::RunList { runs: views }));
                assert forall|i: int| 0 <= i < runs.len() implies listing::can_shorten(
                    (#[trigger] runs@[i])@.candidate.change_id,
                ) by {
                    assert(views[i] == runs@[i]@);
                }
            }
            ClientStep::Done(say_lines(listing::show_runs(runs)))
        },
        _ => ClientStep::Done(refuse(response, MainError::CheckFailed)),
    }
}

// ---------------------------------------------------------------------------
// The status of a run

/// The run that is to be shown, where an answer holds one.
pub open spec fn answered_run(h: QueryHistory) -> Option<mq_protocol::MQRunView> {
    match answer(h) {
        Some(MQResponseView::RunStatus { run }) => run,
        _ => None,
    }
}

/// The run that is to be shown, where an answer holds one: its active steps
/// need times before it can be.
pub fn run_to_show<'a>(h: &'a QueryHistory) -> (res: Option<&'a MQRunInfo>)
    ensures
        match res {
            Some(run) => answered_run(*h) == Some(run@),
            None => answered_run(*h) is None,
        },
{
    match (&h.runtime_dir, &h.response) {
        (Some(Ok(Some(_))), Some(Ok(MQResponse::RunStatus { run: Some(run) }))) => Some(run),
        _ => None,
    }
}

/// What is reported about the status of a run.
pub open spec fn status_report(
    run_id: RunId,
    response: MQResponseView,
    times: Seq<ShownTimes>,
) -> ReportView {
    match response {
        MQResponseView::RunStatus { run: Some(run) } => ReportView {
            out: listing::status_lines(run, times),
            err: seq![],
            end: EndView::Success,
        },
        MQResponseView::RunStatus { run: None } => complained(
            "Run "@ + text::decimal(run_id.0 as nat) + " not found"@,
            EndView::Fail(MainErrorView::CheckFailed),
        ),
        other => refused(other, MainErrorView::CheckFailed),
    }
}

/// What asking for the status of a run does next. The times are those of the
/// active steps of the run that is shown.
pub fn get_status(run_id: u64, h: &QueryHistory, times: &Vec<ShownTimes>) -> (res: ClientStep)
    requires
        answered_run(*h) matches Some(run) ==> times.len() == listing::shown_steps(run).len(),
    ensures
        res@ == query_step(
            MQRequestView::GetStatus { run_id: RunId(run_id) },
            None,
            *h,
            status_report(RunId(run_id), answer(*h)->0, times@),
        ),
{
    let id = RunId(run_id);
    let response = match query(MQRequest::GetStatus { run_id: id }, None, h) {
        Ok(response) => response,
        Err(step) => return step,
    };
    match response {
        MQResponse::RunStatus { run: Some(run) } => ClientStep::Done(
            say_lines(listing::show_status(run, times)),
        ),
        MQResponse::RunStatus { run: None } => ClientStep::Done(
            complain(
                String::from_str("Run ").concat(id.display().as_str()).concat(" not found"),
                End::Fail(MainError::CheckFailed),
            ),
        ),
        _ => ClientStep::Done(refuse(response, MainError::CheckFailed)),
    }
}

// ---------------------------------------------------------------------------
// Waiting

/// What waiting needs before it can begin: the run to wait for.
#[derive(Debug)]
pub enum WaitStep {
    Ask(ClientStep),
    WaitFor(RunId),
}

/// What a [`WaitStep`] holds.
pub enum WaitView {
    Ask(ClientView),
    WaitFor(RunId),
}

impl View for WaitStep {
    type V = WaitView;

    open spec fn view(&self) -> WaitView {
        match *self {
            WaitStep::Ask(step) => WaitView::Ask(step@),
            WaitStep::WaitFor(id) => WaitView::WaitFor(id),
        }
    }
}

/// Which run to wait for: the one that was named, else the newest. There must
/// be a daemon either way.
pub open spec fn wait_step(run_id: Option<u64>, h: QueryHistory) -> WaitView {
    match (run_id, h.runtime_dir) {
        (Some(id), Some(Ok(Some(_)))) => WaitView::WaitFor(RunId(id)),
        _ => match answer(h) {
            Some(MQResponseView::RunList { runs }) => if runs.len() > 0 {
                WaitView::WaitFor(runs[0].id)
            } else {
                WaitView::Ask(
                    ClientView::Done(
                        complained(
                            "No runs in queue"@,
                            EndView::Exit(exit_codes::EXIT_MQ_RUN_NOT_FOUND),
                        ),
                    ),
                )
            },
            Some(_) => WaitView::Ask(
                ClientView::Done(silent(EndView::Fail(MainErrorView::CommunicationFailed))),
            ),
            None => WaitView::Ask(
                query_step(
                    MQRequestView::List { limit: Some(1) },
                    None,
                    h,
                    silent(EndView::Success),
                ),
            ),
        },
    }
}

/// Which run to wait for: the one that was named, else the newest.
pub fn wait_for_run(run_id: Option<u64>, h: &QueryHistory) -> (res: WaitStep)
    ensures
        res@ == wait_step(run_id, *h),
{
    match run_id {
        Some(id) => match &h.runtime_dir {
            Some(Ok(Some(_))) => return WaitStep::WaitFor(RunId(id)),
            _ => {},
        },
        None => {},
    }
    let response = match query(MQRequest::List { limit: Some(1) }, None, h) {
        Ok(response) => response,
        Err(step) => return WaitStep::Ask(step),
    };
    match response {
        MQResponse::RunList { runs } => {
            assert(mq_protocol::run_views(runs@).len() == runs.len());
            if runs.len() > 0 {
                assert(mq_protocol::run_views(runs@)[0] == runs@[0]@);
                WaitStep::WaitFor(runs[0].id)
            } else {
                WaitStep::Ask(
                    ClientStep::Done(
                        complain(
                            "No runs in queue".to_owned(),
                            End::Exit(exit_codes::EXIT_MQ_RUN_NOT_FOUND),
                        ),
                    ),
                )
            }
        },
        _ => WaitStep::Ask(
            ClientStep::Done(say_nothing(End::Fail(MainError::CommunicationFailed))),
        ),
    }
}

/// What is reported once waiting is over: success only for a run that passed.
pub open spec fn waited_report(run_id: RunId, response: MQResponseView) -> ReportView {
    let id = text::decimal(run_id.0 as nat);
    match response {
        MQResponseView::RunStatus { run: Some(run) } => complained(
            "Run "@ + id + " completed: "@ + mq_protocol::status_text(run.status),
            if run.status is Passed {
                EndView::Success
            } else {
                EndView::Exit(exit_codes::EXIT_MQ_WAIT_FAILED)
            },
        ),
        MQResponseView::RunStatus { run: None } => complained(
            "Run "@ + id + " not found"@,
            EndView::Exit(exit_codes::EXIT_MQ_RUN_NOT_FOUND),
        ),
        _ => silent(EndView::Fail(MainErrorView::CommunicationFailed)),
    }
}

/// What is said before waiting.
pub open spec fn waiting_line(run_id: RunId) -> Seq<char> {
    "Waiting for run "@ + text::decimal(run_id.0 as nat) + " ..."@
}

/// What waiting for a run does next.
pub fn wait_for_run_id(run_id: RunId, h: &QueryHistory) -> (res: ClientStep)
    ensures
        res@ == query_step(
            MQRequestView::WaitForRun { run_id },
            Some(waiting_line(run_id)),
            *h,
            waited_report(run_id, answer(*h)->0),
        ),
{
    let id = run_id.display();
    let line = String::from_str("Waiting for run ").concat(id.as_str()).concat(" ...");
    let response = match query(MQRequest::WaitForRun { run_id }, Some(line), h) {
        Ok(response) => response,
        Err(step) => return step,
    };
    match response {
        MQResponse::RunStatus { run: Some(run) } => {
            let line = String::from_str("Run ").concat(id.as_str()).concat(" completed: ").concat(
                run.status.display().as_str(),
            );
            let end = if run.status.is_passed() {
                End::Success
            } else {
                End::Exit(exit_codes::EXIT_MQ_WAIT_FAILED)
            };
            ClientStep::Done(complain(line, end))
        },
        MQResponse::RunStatus { run: None } => ClientStep::Done(
            complain(
                String::from_str("Run ").concat(id.as_str()).concat(" not found"),
                End::Exit(exit_codes::EXIT_MQ_RUN_NOT_FOUND),
            ),
        ),
        _ => ClientStep::Done(say_nothing(End::Fail(MainError::CommunicationFailed))),
    }
}

// ---------------------------------------------------------------------------
// The daemon itself

/// What printing the daemon's runtime directory reports.
pub open spec fn runtime_dir_report(found: Result<Option<String>, MainError>) -> ReportView {
    match found {
        Err(e) => silent(EndView::Fail(e@)),
        Ok(None) => silent(EndView::Fail(MainErrorView::DaemonNotRunning)),
        Ok(Some(dir)) => said(dir@),
    }
}

/// What printing the daemon's runtime directory reports.
pub fn print_runtime_dir(found: &Result<Option<String>, MainError>) -> (res: Report)
    ensures
        res@ == runtime_dir_report(*found),
{
    match found {
        Err(e) => say_nothing(End::Fail(e.clone())),
        Ok(None) => say_nothing(End::Fail(MainError::DaemonNotRunning)),
        Ok(Some(dir)) => say(dir.clone()),
    }
}

/// What printing the daemon's process ID does next.
pub open spec fn pid_step(
    runtime_dir: Option<Result<Option<String>, MainError>>,
    pid_file: Option<Result<String, String>>,
) -> ClientView {
    match runtime_dir {
        None => ClientView::FindRuntimeDir,
        Some(Err(e)) => ClientView::Done(silent(EndView::Fail(e@))),
        Some(Ok(None)) => ClientView::Done(silent(EndView::Fail(MainErrorView::DaemonNotRunning))),
        Some(Ok(Some(dir))) => match pid_file {
            None => ClientView::ReadPid {
                path: text::joined_path(dir@, constants::MQ_PID_FILENAME@),
            },
            Some(Err(e)) => ClientView::Done(silent(EndView::Fail(MainErrorView::CreateFailed(e@)))),
            Some(Ok(content)) => ClientView::Done(said(text::trimmed(content@))),
        },
    }
}

/// What printing the daemon's process ID does next.
pub fn print_pid(
    runtime_dir: &Option<Result<Option<String>, MainError>>,
    pid_file: &Option<Result<String, String>>,
) -> (res: ClientStep)
    ensures
        res@ == pid_step(*runtime_dir, *pid_file),
{
    let dir = match runtime_dir {
        None => return ClientStep::FindRuntimeDir,
        Some(Err(e)) => return ClientStep::Done(say_nothing(End::Fail(e.clone()))),
        Some(Ok(None)) => {
            return ClientStep::Done(say_nothing(End::Fail(MainError::DaemonNotRunning)));
        },
        Some(Ok(Some(dir))) => dir,
    };
    match pid_file {
        None => ClientStep::ReadPid {
            path: text::join_path(dir.as_str(), constants::MQ_PID_FILENAME),
        },
        Some(Err(e)) => ClientStep::Done(say_nothing(End::Fail(MainError::CreateFailed(e.clone())))),
        Some(Ok(content)) => ClientStep::Done(say(text::trim(content.as_str()))),
    }
}

/// What is reported about the daemon's version.
pub open spec fn version_report(response: MQResponseView) -> ReportView {
    match response {
        MQResponseView::Version { version } => said("selfci "@ + version),
        other => refused(other, MainErrorView::CommunicationFailed),
    }
}

/// What asking for the daemon's version does next. That there is no daemon is
/// said, and is no error.
pub fn get_daemon_version(h: &QueryHistory) -> (res: ClientStep)
    ensures
        res@ == (if h.runtime_dir matches Some(Ok(None)) {
            ClientView::Done(said("Merge queue daemon is not running for this project"@))
        } else {
            query_step(MQRequestView::Version, None, *h, version_report(answer(*h)->0))
        }),
{
    match &h.runtime_dir {
        Some(Ok(None)) => {
            return ClientStep::Done(
                say("Merge queue daemon is not running for this project".to_owned()),
            );
        },
        _ => {},
    }
    let response = match query(MQRequest::Version, None, h) {
        Ok(response) => response,
        Err(step) => return step,
    };
    match response {
        MQResponse::Version { version } => ClientStep::Done(
            say(String::from_str("selfci ").concat(version.as_str())),
        ),
        _ => ClientStep::Done(refuse(response, MainError::CommunicationFailed)),
    }
}

/// Waiting succeeds exactly for runs that passed, and every other answer ends
/// the program with an error.
pub proof fn law_waiting_reflects_the_run(run_id: RunId, response: MQResponseView)
    ensures
        waited_report(run_id, response).end == EndView::Success <==> (
        response matches MQResponseView::RunStatus { run: Some(run) } && run.status is Passed),
{
}

/// No command that needs the daemon reports anything without it.
pub proof fn law_commands_need_the_daemon(
    request: MQRequestView,
    line: Option<Seq<char>>,
    h: QueryHistory,
    answered: ReportView,
    run_id: Option<u64>,
)
    requires
        h.runtime_dir == Some(Ok::<Option<String>, MainError>(None)),
    ensures
        query_step(request, line, h, answered) == ClientView::Done(
            silent(EndView::Fail(MainErrorView::DaemonNotRunning)),
        ),
        wait_step(run_id, h) == WaitView::Ask(
            ClientView::Done(silent(EndView::Fail(MainErrorView::DaemonNotRunning))),
        ),
{
}

/// A submission is asked of the daemon with what the user named, and with the
/// system's own default where nothing was named.
pub proof fn law_submissions_name_the_candidate(
    candidate: Option<Seq<char>>,
    no_merge: bool,
    wait: bool,
    h: AddHistory,
)
    ensures
        add_step(candidate, no_merge, wait, h) matches AddView::Send { request, .. } ==> {
            &&& request matches MQRequestView::AddCandidate { candidate: sent, no_merge: flag }
            &&& flag == no_merge
            &&& sent == (match candidate {
                Some(c) => c,
                None => default_candidate_text((h.vcs->0)->Ok_0),
            })
        },
        add_step(candidate, no_merge, wait, h) matches AddView::Done {
            wait_for: Some(id),
            ..
        } ==> wait && h.response is Some,
{
}

/// Where the daemon listens: at `mq.sock` in its directory, whatever is asked of
/// it. What is asked is sent as it is, with what is to be said before.
pub proof fn law_questions_go_to_the_socket(
    request: MQRequestView,
    line: Option<Seq<char>>,
    h: QueryHistory,
    answered: ReportView,
)
    ensures
        ({
            let step = query_step(request, line, h, answered);
            let found = h.runtime_dir is Some && h.runtime_dir->0 is Ok
                && h.runtime_dir->0->Ok_0 is Some;
            &&& step is FindRuntimeDir <==> h.runtime_dir is None
            &&& step is Send <==> found && h.response is None
            &&& step is Send ==> step == (ClientView::Send {
                socket: text::joined_path((h.runtime_dir->0->Ok_0->0)@, "mq.sock"@),
                request,
                line,
            })
            &&& h.runtime_dir is Some && h.runtime_dir->0 is Err ==> step is Done
                && step->Done_0.end == EndView::Fail(h.runtime_dir->0->Err_0@)
            &&& h.runtime_dir is Some && h.runtime_dir->0 is Ok && h.runtime_dir->0->Ok_0 is None
                ==> step is Done && step->Done_0.end == EndView::Fail(
                MainErrorView::DaemonNotRunning,
            )
            &&& found && h.response is Some && h.response->0 is Err ==> step is Done
                && step->Done_0.end == EndView::Fail(MainErrorView::CommunicationFailed)
            &&& found && h.response is Some && h.response->0 is Ok ==> step == ClientView::Done(
                answered,
            ) && answer(h) == Some(h.response->0->Ok_0@)
            &&& !(found && h.response is Some && h.response->0 is Ok) ==> {
                &&& answer(h) is None
                &&& step is Done ==> step->Done_0.out.len() == 0 && step->Done_0.err.len() == 0
            }
        }),
{
}

/// The candidate that a submission is for: what the user named. Where nothing was
/// named it is the commit that is checked out, which in Jujutsu is the one
/// before the working copy.
pub proof fn law_submissions_are_for_what_was_named(
    candidate: Option<Seq<char>>,
    no_merge: bool,
    wait: bool,
    h: AddHistory,
)
    ensures
        add_step(candidate, no_merge, wait, h) matches AddView::Send { socket, request } ==> {
            &&& request matches MQRequestView::AddCandidate { candidate: sent, no_merge: flag }
            &&& flag == no_merge
            &&& candidate is Some ==> sent == candidate->0
            &&& candidate is None ==> {
                &&& h.vcs == Some(Ok::<VCS, VCSError>(VCS::Git)) || h.vcs == Some(
                    Ok::<VCS, VCSError>(VCS::Jujutsu),
                )
                &&& h.vcs == Some(Ok::<VCS, VCSError>(VCS::Git)) ==> sent == "HEAD"@
                &&& h.vcs == Some(Ok::<VCS, VCSError>(VCS::Jujutsu)) ==> sent == "@-"@
            }
            &&& (h.runtime_dir->0->Ok_0 is Some ==> socket == text::joined_path(
                (h.runtime_dir->0->Ok_0->0)@,
                "mq.sock"@,
            ))
            &&& (h.runtime_dir->0->Ok_0 is None ==> socket == text::joined_path(
                (h.started->0->Ok_0->0)@,
                "mq.sock"@,
            ))
        },
{
}

/// Whether it is known what a submission is for.
pub open spec fn knows_candidate(candidate: Option<Seq<char>>, h: AddHistory) -> bool {
    candidate is Some || (h.vcs is Some && h.vcs->0 is Ok)
}

/// Whether there is a daemon to submit to, found or started.
pub open spec fn has_daemon(h: AddHistory) -> bool {
    &&& h.runtime_dir is Some && h.runtime_dir->0 is Ok
    &&& h.runtime_dir->0->Ok_0 is None ==> h.started is Some && h.started->0 is Ok
        && h.started->0->Ok_0 is Some
}

/// Submitting does one thing after the other, each exactly when it is needed and
/// all before it went well: it finds the version control system where nothing was
/// named, finds the daemon, starts one where there is none, and asks it.
pub proof fn law_submitting_goes_in_order(
    candidate: Option<Seq<char>>,
    no_merge: bool,
    wait: bool,
    h: AddHistory,
)
    ensures
        ({
            let step = add_step(candidate, no_merge, wait, h);
            &&& step is DetectVcs <==> candidate is None && h.vcs is None
            &&& step is FindRuntimeDir <==> knows_candidate(candidate, h) && h.runtime_dir is None
            &&& step is AutoStart <==> knows_candidate(candidate, h) && h.runtime_dir is Some
                && h.runtime_dir->0 is Ok && h.runtime_dir->0->Ok_0 is None && h.started is None
            &&& step is Send <==> knows_candidate(candidate, h) && has_daemon(h) && h.response
                is None
        }),
{
}

/// How submitting ends. A run that was added is reported by its number, and waited
/// for exactly if that was asked for. Anything else is a failure that says what
/// went wrong, and there is nothing to wait for.
pub proof fn law_submitting_reports_the_run(
    candidate: Option<Seq<char>>,
    no_merge: bool,
    wait: bool,
    h: AddHistory,
)
    requires
        add_step(candidate, no_merge, wait, h) is Done,
    ensures
        ({
            let step = add_step(candidate, no_merge, wait, h);
            let report = step->report;
            let asked = knows_candidate(candidate, h) && has_daemon(h);
            let said = asked && h.response->0 is Ok;
            let added = said && h.response->0->Ok_0@ is CandidateAdded;
            let id = h.response->0->Ok_0@->CandidateAdded_run_id;
            &&& added ==> {
                &&& report.end == EndView::Success
                &&& report.err.len() == 0
                &&& report.out.len() == 1
                &&& !no_merge ==> report.out[0] == "Added to merge queue with run ID: "@
                    + text::decimal(id.0 as nat)
                &&& no_merge ==> report.out[0] == "Added to merge queue with run ID: "@
                    + text::decimal(id.0 as nat) + " (no-merge mode)"@
                &&& wait ==> step->wait_for == Some(id)
                &&& !wait ==> step->wait_for is None
            }
            &&& !added ==> {
                &&& report.out.len() == 0
                &&& report.end is Fail
                &&& step->wait_for is None
            }
            &&& said && h.response->0->Ok_0@ is Error ==> {
                &&& report.err =~= seq!["Error: "@ + h.response->0->Ok_0@->Error_0]
                &&& report.end == EndView::Fail(MainErrorView::CheckFailed)
            }
            &&& said && !(h.response->0->Ok_0@ is Error) && !added ==> {
                &&& report.err =~= seq!["Unexpected response from daemon"@]
                &&& report.end == EndView::Fail(MainErrorView::CheckFailed)
            }
            &&& asked && h.response->0 is Err ==> report.end == EndView::Fail(
                MainErrorView::CommunicationFailed,
            )
            &&& knows_candidate(candidate, h) && h.runtime_dir->0 is Err ==> report.end
                == EndView::Fail(h.runtime_dir->0->Err_0@)
            &&& knows_candidate(candidate, h) && h.runtime_dir->0 is Ok
                && h.runtime_dir->0->Ok_0 is None && h.started->0 is Err ==> report.end
                == EndView::Fail(h.started->0->Err_0@)
            &&& knows_candidate(candidate, h) && h.runtime_dir->0 is Ok
                && h.runtime_dir->0->Ok_0 is None && h.started->0 is Ok && h.started->0->Ok_0
                is None ==> {
                &&& report.err =~= seq![
                    "Start it with: selfci mq start --base-branch <branch>"@,
                    "Or set mq.base-branch in .config/selfci/ci.yaml for auto-start"@,
                ]
                &&& report.end == EndView::Fail(MainErrorView::DaemonNotRunning)
            }
            &&& !knows_candidate(candidate, h) ==> report.end == EndView::Fail(
                error::vcs_main_error(h.vcs->0->Err_0),
            )
        }),
{
}

/// What is waited for: the run that was named, or else the newest, which the
/// daemon is asked for. Without any run there is nothing to wait for.
pub proof fn law_the_named_run_is_waited_for(run_id: Option<u64>, h: QueryHistory)
    ensures
        ({
            let step = wait_step(run_id, h);
            let found = h.runtime_dir is Some && h.runtime_dir->0 is Ok
                && h.runtime_dir->0->Ok_0 is Some;
            &&& run_id is Some && found ==> step == WaitView::WaitFor(RunId(run_id->0))
            &&& run_id is None && found && h.response is None ==> step == WaitView::Ask(
                ClientView::Send {
                    socket: text::joined_path((h.runtime_dir->0->Ok_0->0)@, "mq.sock"@),
                    request: MQRequestView::List { limit: Some(1) },
                    line: None,
                },
            )
            &&& run_id is None && (answer(h) matches Some(MQResponseView::RunList { runs })
                && runs.len() > 0) ==> step is WaitFor && step->WaitFor_0
                == answer(h)->0->runs[0].id
            &&& run_id is None && (answer(h) matches Some(MQResponseView::RunList { runs })
                && runs.len() == 0) ==> step is Ask && step->Ask_0 is Done && ({
                let report = step->Ask_0->Done_0;
                report.err =~= seq!["No runs in queue"@] && report.out.len() == 0 && report.end
                    == EndView::Exit(14)
            })
            &&& run_id is None && answer(h) is Some && !(answer(h)->0 is RunList) ==> step is Ask
                && step->Ask_0 is Done && step->Ask_0->Done_0.end == EndView::Fail(
                MainErrorView::CommunicationFailed,
            )
        }),
{
}

/// What is reported once waiting is over: how the run ended, with success only
/// where it passed.
pub proof fn law_waiting_reports_how_the_run_ended(run_id: RunId, response: MQResponseView)
    ensures
        ({
            let report = waited_report(run_id, response);
            let id = text::decimal(run_id.0 as nat);
            &&& report.out.len() == 0
            &&& (response matches MQResponseView::RunStatus { run: Some(run) } ==> {
                &&& report.err =~= seq![
                    "Run "@ + id + " completed: "@ + mq_protocol::status_text(run.status),
                ]
                &&& run.status is Passed ==> report.end == EndView::Success
                &&& !(run.status is Passed) ==> report.end == EndView::Exit(15)
            })
            &&& (response matches MQResponseView::RunStatus { run: None } ==> {
                &&& report.err =~= seq!["Run "@ + id + " not found"@]
                &&& report.end == EndView::Exit(14)
            })
            &&& !(response is RunStatus) ==> {
                &&& report.err.len() == 0
                &&& report.end == EndView::Fail(MainErrorView::CommunicationFailed)
            }
        }),
        waiting_line(run_id) == "Waiting for run "@ + text::decimal(run_id.0 as nat) + " ..."@,
{
}

/// What is reported about a run: all of its lines, or that there is no such run. An
/// answer that says what went wrong is handed on, and one that does not belong to
/// the question is a failure too.
pub proof fn law_statuses_are_reported(
    run_id: RunId,
    response: MQResponseView,
    times: Seq<ShownTimes>,
)
    ensures
        ({
            let report = status_report(run_id, response, times);
            &&& (response matches MQResponseView::RunStatus { run: Some(run) } ==> {
                &&& report.out == listing::status_lines(run, times)
                &&& report.err.len() == 0
                &&& report.end == EndView::Success
            })
            &&& !(response matches MQResponseView::RunStatus { run: Some(run) }) ==> {
                &&& report.out.len() == 0
                &&& report.err.len() == 1
                &&& report.end == EndView::Fail(MainErrorView::CheckFailed)
            }
            &&& (response matches MQResponseView::RunStatus { run: None } ==> report.err[0]
                == "Run "@ + text::decimal(run_id.0 as nat) + " not found"@)
            &&& (response matches MQResponseView::Error(e) ==> report.err[0] == "Error: "@ + e)
            &&& !(response is RunStatus || response is Error) ==> report.err[0]
                == "Unexpected response from daemon"@
        }),
        ({
            let report = version_report(response);
            &&& (response matches MQResponseView::Version { version } ==> {
                &&& report.out =~= seq!["selfci "@ + version]
                &&& report.err.len() == 0
                &&& report.end == EndView::Success
            })
            &&& (response matches MQResponseView::Error(e) ==> report.err =~= seq!["Error: "@ + e])
            &&& !(response is Version || response is Error) ==> report.err =~= seq![
                "Unexpected response from daemon"@,
            ]
            &&& !(response is Version) ==> {
                &&& report.out.len() == 0
                &&& report.end == EndView::Fail(MainErrorView::CommunicationFailed)
            }
        }),
{
}

/// The daemon's directory and its process are printed as they were found: the one
/// as it is, the other from `mq.pid` in it, without white space around it.
pub proof fn law_the_daemon_is_told_about(
    dir: String,
    content: String,
    reason: String,
    e: MainError,
    file: Option<Result<String, String>>,
)
    ensures
        ({
            let report = runtime_dir_report(Ok(Some(dir)));
            report.out =~= seq![dir@] && report.err.len() == 0 && report.end == EndView::Success
        }),
        ({
            let report = runtime_dir_report(Ok(None));
            report.out.len() == 0 && report.end == EndView::Fail(MainErrorView::DaemonNotRunning)
        }),
        ({
            let report = runtime_dir_report(Err(e));
            report.out.len() == 0 && report.end == EndView::Fail(e@)
        }),
        pid_step(None, file) is FindRuntimeDir,
        pid_step(Some(Ok(Some(dir))), None) == (ClientView::ReadPid {
            path: text::joined_path(dir@, "mq.pid"@),
        }),
        pid_step(Some(Ok(Some(dir))), Some(Ok(content))) matches ClientView::Done(report)
            && report.out =~= seq![text::trimmed(content@)] && report.end == EndView::Success,
        pid_step(Some(Ok(Some(dir))), Some(Err(reason))) matches ClientView::Done(report)
            && report.out.len() == 0 && report.end == EndView::Fail(
            MainErrorView::CreateFailed(reason@),
        ),
        pid_step(Some(Ok(None)), file) matches ClientView::Done(report) && report.out.len() == 0
            && report.end == EndView::Fail(MainErrorView::DaemonNotRunning),
        pid_step(Some(Err(e)), file) matches ClientView::Done(report) && report.out.len() == 0
            && report.end == EndView::Fail(e@),
{
}

/// What is reported is what its parts hold.
pub proof fn law_reports_hold_their_parts(report: Report, end: End)
    ensures
        report@.out == text::texts(report.out@),
        report@.err == text::texts(report.err@),
        report@.end == report.end@,
        end@ is Success <==> end is Success,
        end matches End::Fail(e) ==> end@ == EndView::Fail(e@),
        end matches End::Exit(code) ==> end@ == EndView::Exit(code),
{
}

/// What each command asks of the daemon: the list up to the limit, the status of
/// the run that was numbered, to be told when a run completes, or the version.
pub proof fn law_commands_ask_their_question(
    h: QueryHistory,
    limit: Option<usize>,
    id: u64,
    times: Vec<ShownTimes>,
    list: ClientStep,
    status: ClientStep,
    wait: ClientStep,
    version: ClientStep,
)
    requires
        call_ensures(list_runs, (limit, &h), list),
        call_ensures(get_status, (id, &h, &times), status),
        call_ensures(wait_for_run_id, (RunId(id), &h), wait),
        call_ensures(get_daemon_version, (&h,), version),
        h.response is None,
    ensures
        ({
            let found = h.runtime_dir is Some && h.runtime_dir->0 is Ok
                && h.runtime_dir->0->Ok_0 is Some;
            let socket = text::joined_path((h.runtime_dir->0->Ok_0->0)@, "mq.sock"@);
            &&& found ==> list@ == (ClientView::Send {
                socket,
                request: MQRequestView::List { limit },
                line: None,
            })
            &&& found ==> status@ == (ClientView::Send {
                socket,
                request: MQRequestView::GetStatus { run_id: RunId(id) },
                line: None,
            })
            &&& found ==> wait@ == (ClientView::Send {
                socket,
                request: MQRequestView::WaitForRun { run_id: RunId(id) },
                line: Some("Waiting for run "@ + text::decimal(id as nat) + " ..."@),
            })
            &&& found ==> version@ == (ClientView::Send {
                socket,
                request: MQRequestView::Version,
                line: None,
            })
            &&& h.runtime_dir is None ==> list@ is FindRuntimeDir && status@ is FindRuntimeDir
                && wait@ is FindRuntimeDir && version@ is FindRuntimeDir
            &&& h.runtime_dir == Some(Ok::<Option<String>, MainError>(None)) ==> {
                &&& list@->Done_0.end == EndView::Fail(MainErrorView::DaemonNotRunning)
                &&& status@->Done_0.end == EndView::Fail(MainErrorView::DaemonNotRunning)
                &&& wait@->Done_0.end == EndView::Fail(MainErrorView::DaemonNotRunning)
                &&& version@->Done_0.end == EndView::Success
                &&& version@->Done_0.out =~= seq![
                    "Merge queue daemon is not running for this project"@,
                ]
            }
        }),
{
    assert(answer(h) is None);
}

/// What each command does with the answer: a list is shown, or that there is
/// nothing to list; a run is shown with its status; how it ended is told; and so is
/// the version.
pub proof fn law_answers_are_reported(
    h: QueryHistory,
    limit: Option<usize>,
    id: u64,
    times: Vec<ShownTimes>,
    list: ClientStep,
    status: ClientStep,
    wait: ClientStep,
    version: ClientStep,
)
    requires
        call_ensures(list_runs, (limit, &h), list),
        call_ensures(get_status, (id, &h, &times), status),
        call_ensures(wait_for_run_id, (RunId(id), &h), wait),
        call_ensures(get_daemon_version, (&h,), version),
        answer(h) is Some,
    ensures
        answer(h)->0 matches MQResponseView::RunList { runs } ==> {
            &&& list@ is Done && list@->Done_0.end == EndView::Success
            &&& runs.len() == 0 ==> list@->Done_0.out =~= seq!["No runs in queue"@]
            &&& runs.len() > 0 ==> listing::shows_runs(list@->Done_0.out, runs)
        },
        !(answer(h)->0 is RunList) ==> list@ is Done && list@->Done_0.end == EndView::Fail(
            MainErrorView::CheckFailed,
        ),
        answer(h)->0 matches MQResponseView::RunStatus { run: Some(run) } ==> {
            &&& status@ is Done && status@->Done_0.out == listing::status_lines(run, times@)
            &&& wait@ is Done && (wait@->Done_0.end == EndView::Success <==> run.status is Passed)
        },
        answer(h)->0 matches MQResponseView::Version { version: number } ==> version@ is Done
            && version@->Done_0.out =~= seq!["selfci "@ + number],
{
}

} // verus!
