//! How runs are shown.

use vstd::prelude::*;

use crate::check::ShownTimes;
use crate::config::MergeStyle;
use crate::mq_protocol;
use crate::mq_protocol::{MQRunInfo, MQRunStatus, MQRunView};
use crate::protocol;
use crate::protocol::{
    JobLogEntry, JobLogView, JobStatus, StepLogEntry, StepLogView, StepStatus, Timestamp,
};
use crate::revision;
use crate::text;

verus! {

// ---------------------------------------------------------------------------
// Times

/// What `humantime::format_rfc3339_seconds` shows for a time, given in seconds
/// since the Unix epoch: the date and the time of day in UTC, as in
/// `2018-02-14T00:28:07Z`.
pub uninterp spec fn rfc3339_seconds(secs: u64) -> Seq<char>;

/// Formats a time with `humantime::format_rfc3339_seconds`. Claimed: the result
/// depends on the time alone. Times from the year 10000 on cannot be formatted,
/// and are left out.
#[verifier::external_body]
fn format_rfc3339_seconds(secs: u64) -> (res: String)
    requires
        secs < 253_402_300_800,
    ensures
        res@ == rfc3339_seconds(secs),
{
    let time = std::time::UNIX_EPOCH + std::time::Duration::from_secs(secs);
    humantime::format_rfc3339_seconds(time).to_string()
}

/// A point in time as it is shown.
pub open spec fn time_text(time: Timestamp) -> Seq<char> {
    rfc3339_seconds((time / 1_000_000_000) as u64)
}

/// A point in time as it is shown.
pub fn show_time(time: Timestamp) -> (res: String)
    ensures
        res@ == time_text(time),
{
    format_rfc3339_seconds(time / 1_000_000_000)
}

// ---------------------------------------------------------------------------
// The table of runs

/// The tables of `comfy_table`.
#[verifier::external_type_specification]
#[verifier::external_body]
pub struct ExTable(comfy_table::Table);

/// The texts of a table's header, none where it has no header.
pub uninterp spec fn table_header(table: comfy_table::Table) -> Seq<Seq<char>>;

/// The texts of a table's rows, from the first row to the last.
pub uninterp spec fn table_rows(table: comfy_table::Table) -> Seq<Seq<Seq<char>>>;

/// Makes a table with `comfy_table::Table::new`, with nothing drawn between its
/// cells (`load_preset`) and with columns that fit the terminal
/// (`set_content_arrangement`). Claimed: it has no header and no rows.
#[verifier::external_body]
fn new_table() -> (res: comfy_table::Table)
    ensures
        table_header(res) == Seq::<Seq<char>>::empty(),
        table_rows(res) == Seq::<Seq<Seq<char>>>::empty(),
{
    let mut table = comfy_table::Table::new();
    table.load_preset(comfy_table::presets::NOTHING).set_content_arrangement(
        comfy_table::ContentArrangement::Dynamic,
    );
    table
}

/// Sets the header with `comfy_table::Table::set_header`. Claimed: the header
/// holds the given texts, and the rows stay.
#[verifier::external_body]
fn set_header(table: &mut comfy_table::Table, cells: &Vec<String>)
    ensures
        table_header(*final(table)) == text::texts(cells@),
        table_rows(*final(table)) == table_rows(*old(table)),
{
    table.set_header(cells);
}

/// Adds a row with `comfy_table::Table::add_row`. Claimed: the row comes after
/// those that are there, with the given texts, and the header stays.
#[verifier::external_body]
fn add_row(table: &mut comfy_table::Table, cells: &Vec<String>)
    ensures
        table_header(*final(table)) == table_header(*old(table)),
        table_rows(*final(table)) == table_rows(*old(table)).push(text::texts(cells@)),
{
    table.add_row(cells);
}

/// What the `Display` of `comfy_table::Table` shows of a table. Where lines break
/// depends on the width of the terminal each time it was asked for (once, and
/// once more for each column sized in percent), none where it has none. Cells
/// with styles are shown with them if `styled` holds, and in their colors if
/// `colored` holds too.
pub uninterp spec fn rendered(
    table: comfy_table::Table,
    widths: Seq<Option<u16>>,
    styled: bool,
    colored: bool,
) -> Seq<char>;

/// Renders a table with its `Display`. Claimed: the result is what that shows of
/// this table, for some terminal. Which terminal the program runs in is left
/// open.
#[verifier::external_body]
fn render(table: &comfy_table::Table) -> (res: String)
    ensures
        exists|widths: Seq<Option<u16>>, styled: bool, colored: bool|
            res@ == #[trigger] rendered(*table, widths, styled, colored),
{
    table.to_string()
}

/// The names of the columns.
pub open spec fn headings() -> Seq<Seq<char>> {
    seq!["ID"@].push("Status"@).push("Change"@).push("Commit"@).push("Candidate"@).push("Queued"@)
}

/// Whether an identifier can be cut after eight bytes.
pub open spec fn can_shorten(id: Seq<char>) -> bool {
    text::first_bytes(id, 8) is Some
}

/// The first eight bytes of an identifier.
pub open spec fn short(id: Seq<char>) -> Seq<char> {
    text::first_bytes(id, 8)->0
}

/// The row of a run.
pub open spec fn run_row(run: MQRunView) -> Seq<Seq<char>> {
    seq![text::decimal(run.id.0 as nat)].push(mq_protocol::status_text(run.status)).push(
        short(run.candidate.change_id),
    ).push(short(run.candidate.commit_id)).push(run.candidate.user).push(time_text(run.queued_at))
}

/// The rows of runs.
pub open spec fn run_rows(runs: Seq<MQRunView>) -> Seq<Seq<Seq<char>>> {
    runs.map_values(|r: MQRunView| run_row(r))
}

/// The first eight digits of a commit are its first eight bytes.
pub proof fn law_short_commits_are_prefixes(id: Seq<char>)
    requires
        revision::is_commit_id(id),
    ensures
        can_shorten(id),
        short(id) == id.take(8),
{
    assert forall|i: int| 0 <= i < id.len() implies text::byte_width(#[trigger] id[i]) == 1 by {
        assert(text::is_hex(id[i]));
    }
    text::lemma_narrow_first_bytes(id, 8);
}

/// Whether the change of a run can be cut after eight bytes, as its row needs.
pub fn can_show(run: &MQRunInfo) -> (res: bool)
    ensures
        res == can_shorten(run@.candidate.change_id),
{
    text::take_bytes(run.candidate.change_id.as_str(), 8).is_some()
}

fn shorten(id: &str) -> (res: String)
    requires
        can_shorten(id@),
    ensures
        res@ == short(id@),
{
    match text::take_bytes(id, 8) {
        Some(s) => s,
        None => String::new(),
    }
}

fn row_of(run: &MQRunInfo) -> (res: Vec<String>)
    requires
        can_shorten(run@.candidate.change_id),
    ensures
        text::texts(res@) == run_row(run@),
{
    let mut cells: Vec<String> = Vec::new();
    cells.push(run.id.display());
    cells.push(run.status.display());
    cells.push(shorten(run.candidate.change_id.as_str()));
    let commit = run.candidate.commit_id.as_str();
    proof {
        law_short_commits_are_prefixes(commit@);
    }
    cells.push(shorten(commit));
    cells.push(run.candidate.user.display());
    cells.push(show_time(run.queued_at));
    assert(text::texts(cells@) =~= run_row(run@));
    cells
}

/// The table of runs: one row for each, in the order given.
pub fn runs_table(runs: &Vec<MQRunInfo>) -> (res: comfy_table::Table)
    requires
        forall|i: int|
            0 <= i < runs.len() ==> can_shorten((#[trigger] runs@[i])@.candidate.change_id),
    ensures
        table_header(res) == headings(),
        table_rows(res) == run_rows(mq_protocol::run_views(runs@)),
{
    let mut table = new_table();
    let mut cells: Vec<String> = Vec::new();
    cells.push("ID".to_owned());
    cells.push("Status".to_owned());
    cells.push("Change".to_owned());
    cells.push("Commit".to_owned());
    cells.push("Candidate".to_owned());
    cells.push("Queued".to_owned());
    assert(text::texts(cells@) =~= headings());
    set_header(&mut table, &cells);
    let ghost rows = run_rows(mq_protocol::run_views(runs@));
    let mut i: usize = 0;
    assert(rows.take(0) =~= seq![]);
    while i < runs.len()
        invariant
            i <= runs.len(),
            forall|j: int|
                0 <= j < runs.len() ==> can_shorten((#[trigger] runs@[j])@.candidate.change_id),
            rows == run_rows(mq_protocol::run_views(runs@)),
            table_header(table) == headings(),
            table_rows(table) == rows.take(i as int),
        decreases runs.len() - i,
    {
        let row = row_of(&runs[i]);
        add_row(&mut table, &row);
        assert(rows.take(i + 1) =~= rows.take(i as int).push(run_row(runs@[i as int]@)));
        i = i + 1;
    }
    assert(rows.take(i as int) =~= rows);
    table
}

/// A rendered table as it is printed: a line of dashes under its first line.
pub open spec fn framed(table: Seq<char>) -> Seq<Seq<char>> {
    let lines = text::lines(table);
    if lines.len() == 0 {
        seq![]
    } else {
        seq![lines[0]].push(text::dashes(lines[0])) + lines.skip(1)
    }
}

/// A rendered table as it is printed: a line of dashes under its first line.
pub fn frame_table(table: &str) -> (res: Vec<String>)
    ensures
        text::texts(res@) == framed(table@),
{
    let lines = text::split_lines(table);
    let mut res: Vec<String> = Vec::new();
    if lines.len() == 0 {
        assert(text::texts(res@) =~= framed(table@));
        return res;
    }
    let ghost all = text::lines(table@);
    assert(all.len() == lines.len());
    res.push(lines[0].clone());
    res.push(text::underline(lines[0].as_str()));
    let mut i: usize = 1;
    let ghost head = seq![all[0]].push(text::dashes(all[0]));
    assert(text::texts(lines@)[0] == lines@[0]@);
    assert(text::texts(res@) =~= head + all.subrange(1, 1));
    while i < lines.len()
        invariant
            1 <= i <= lines.len(),
            all == text::texts(lines@),
            text::texts(res@) == head + all.subrange(1, i as int),
        decreases lines.len() - i,
    {
        let ghost before = res@;
        res.push(lines[i].clone());
        assert(text::texts(lines@)[i as int] == lines@[i as int]@);
        assert(text::texts(res@) =~= text::texts(before).push(all[i as int]));
        assert(head + all.subrange(1, i + 1) =~= (head + all.subrange(1, i as int)).push(
            all[i as int],
        ));
        i = i + 1;
    }
    assert(all.subrange(1, i as int) =~= all.skip(1));
    res
}

/// Whether the lines show exactly these runs: their table, rendered for some
/// terminal and framed.
pub open spec fn shows_runs(lines: Seq<Seq<char>>, runs: Seq<MQRunView>) -> bool {
    exists|
        table: comfy_table::Table,
        widths: Seq<Option<u16>>,
        styled: bool,
        colored: bool,
    |
        #![trigger rendered(table, widths, styled, colored)]
        {
            &&& table_header(table) == headings()
            &&& table_rows(table) == run_rows(runs)
            &&& lines == framed(rendered(table, widths, styled, colored))
        }
}

/// Runs as they are printed. How the rows are laid out depends on the terminal;
/// that they are the rows of these runs, under the headings, does not.
pub fn show_runs(runs: &Vec<MQRunInfo>) -> (res: Vec<String>)
    requires
        forall|i: int|
            0 <= i < runs.len() ==> can_shorten((#[trigger] runs@[i])@.candidate.change_id),
    ensures
        if runs.len() == 0 {
            text::texts(res@) == seq!["No runs in queue"@]
        } else {
            shows_runs(text::texts(res@), mq_protocol::run_views(runs@))
        },
{
    if runs.len() == 0 {
        let mut lines: Vec<String> = Vec::new();
        lines.push("No runs in queue".to_owned());
        assert(text::texts(lines@) =~= seq!["No runs in queue"@]);
        return lines;
    }
    let table = runs_table(runs);
    let rendered = render(&table);
    frame_table(rendered.as_str())
}

// ---------------------------------------------------------------------------
// The status of a run

/// Those of the given steps that are running.
pub open spec fn running_steps(steps: Seq<StepLogView>) -> Seq<StepLogView>
    decreases steps.len(),
{
    if steps.len() == 0 {
        seq![]
    } else {
        let earlier = running_steps(steps.drop_last());
        if steps.last().status == StepStatus::Running {
            earlier.push(steps.last())
        } else {
            earlier
        }
    }
}

/// The steps that are shown as active: the running ones of a run that is
/// running.
pub open spec fn shown_steps(run: MQRunView) -> Seq<StepLogView> {
    if run.started_at is Some && run.status == MQRunStatus::Running {
        running_steps(run.active_jobs)
    } else {
        seq![]
    }
}

/// The steps that are shown as active: the running ones of a run that is
/// running.
pub fn active_steps(run: &MQRunInfo) -> (res: Vec<StepLogEntry>)
    ensures
        protocol::step_views(res@) == shown_steps(run@),
{
    let mut res: Vec<StepLogEntry> = Vec::new();
    assert(protocol::step_views(res@) =~= seq![]);
    if run.started_at.is_none() || run.status != MQRunStatus::Running {
        return res;
    }
    let steps = &run.active_jobs;
    let ghost all = protocol::step_views(steps@);
    let mut i: usize = 0;
    assert(all.take(0) =~= seq![]);
    while i < steps.len()
        invariant
            i <= steps.len(),
            all == protocol::step_views(steps@),
            protocol::step_views(res@) == running_steps(all.take(i as int)),
        decreases steps.len() - i,
    {
        let ghost before = res@;
        proof {
            assert(all.take(i + 1).drop_last() =~= all.take(i as int));
            assert(all.take(i + 1).last() == steps@[i as int]@);
        }
        if steps[i].status == StepStatus::Running {
            let step = steps[i].clone();
            res.push(step);
            assert(protocol::step_views(res@) =~= protocol::step_views(before).push(
                steps@[i as int]@,
            ));
        }
        i = i + 1;
    }
    assert(all.take(i as int) =~= all);
    res
}

/// How long it is since an earlier time; nothing where that time is yet to come.
pub open spec fn time_since(earlier: Timestamp, now: Timestamp) -> u64 {
    if earlier <= now {
        (now - earlier) as u64
    } else {
        0
    }
}

/// For how long a step and its job have been running, in nanoseconds. A job
/// whose start is not known, or is yet to come, has been running as long as the
/// step.
pub fn elapsed(step: &StepLogEntry, now: Timestamp) -> (res: (u64, u64))
    ensures
        res.0 == time_since(step.ts, now),
        res.1 == (match step.job_started_at {
            Some(t) => if t <= now {
                time_since(t, now)
            } else {
                time_since(step.ts, now)
            },
            None => time_since(step.ts, now),
        }),
{
    let step_elapsed: u64 = if step.ts <= now {
        now - step.ts
    } else {
        0
    };
    let job_elapsed: u64 = match step.job_started_at {
        Some(t) => {
            if t <= now {
                now - t
            } else {
                step_elapsed
            }
        },
        None => step_elapsed,
    };
    (step_elapsed, job_elapsed)
}

/// How an active step is shown, with its times in seconds.
pub open spec fn active_text(name: Seq<char>, times: ShownTimes) -> Seq<char> {
    name + " ("@ + times.step@ + "s/"@ + times.job@ + "s)"@
}

/// How active steps are shown.
pub open spec fn active_texts(steps: Seq<StepLogView>, times: Seq<ShownTimes>) -> Seq<Seq<char>> {
    Seq::new(steps.len(), |i: int| active_text(steps[i].name, times[i]))
}

/// The names of steps whose failure counts.
pub open spec fn failed_steps(steps: Seq<StepLogView>) -> Seq<Seq<char>>
    decreases steps.len(),
{
    if steps.len() == 0 {
        seq![]
    } else {
        let earlier = failed_steps(steps.drop_last());
        if protocol::fails_job(steps.last().status) {
            earlier.push(steps.last().name)
        } else {
            earlier
        }
    }
}

/// The names of jobs that failed.
pub open spec fn failed_jobs(jobs: Seq<JobLogView>) -> Seq<Seq<char>>
    decreases jobs.len(),
{
    if jobs.len() == 0 {
        seq![]
    } else {
        let earlier = failed_jobs(jobs.drop_last());
        if jobs.last().status == JobStatus::Failed {
            earlier.push(jobs.last().name)
        } else {
            earlier
        }
    }
}

/// What failed in a run: its steps, then its jobs.
pub open spec fn failed_items(run: MQRunView) -> Seq<Seq<char>> {
    failed_steps(run.completed_steps) + failed_jobs(run.completed_jobs)
}

/// The lines with one more, where a condition holds.
pub open spec fn with_line(lines: Seq<Seq<char>>, shown: bool, line: Seq<char>) -> Seq<Seq<char>> {
    if shown {
        lines.push(line)
    } else {
        lines
    }
}

/// What is said first about a run.
pub open spec fn status_head(run: MQRunView) -> Seq<Seq<char>> {
    seq!["Run ID: "@ + text::decimal(run.id.0 as nat)].push(
        "Candidate: "@ + run.candidate.user + " (commit: "@ + run.candidate.commit_id + ")"@,
    ).push("Status: "@ + mq_protocol::status_text(run.status)).push(
        "Queued at: "@ + time_text(run.queued_at),
    )
}

/// The title of the log of the test integration.
pub open spec fn integration_title(mode: MergeStyle) -> Seq<char> {
    match mode {
        MergeStyle::Rebase => "\n### Pre-check Rebase\n"@,
        MergeStyle::Merge => "\n### Pre-check Merge\n"@,
    }
}

/// What is said about a run.
pub open spec fn status_lines(run: MQRunView, times: Seq<ShownTimes>) -> Seq<Seq<char>> {
    let active = shown_steps(run);
    let failed = failed_items(run);
    let lines = status_head(run);
    let lines = with_line(
        lines,
        run.started_at is Some,
        "Started at: "@ + time_text(run.started_at->0),
    );
    let lines = with_line(
        lines,
        active.len() > 0,
        "Active Steps: "@ + text::joined(active_texts(active, times), ", "@),
    );
    let lines = with_line(
        lines,
        run.completed_at is Some,
        "Completed at: "@ + time_text(run.completed_at->0),
    );
    let merged = run.test_merge_output.len() > 0;
    let lines = with_line(lines, merged, integration_title(run.merge_mode));
    let lines = with_line(lines, merged, run.test_merge_output);
    let checked = run.output.len() > 0;
    let lines = with_line(lines, checked, "\n### Check Output\n"@);
    let lines = with_line(lines, checked, run.output);
    with_line(lines, failed.len() > 0, "\nFailed: "@ + text::joined(failed, ", "@))
}

fn say(lines: &mut Vec<String>, line: String)
    ensures
        text::texts(final(lines)@) == text::texts(old(lines)@).push(line@),
{
    let ghost before = lines@;
    lines.push(line);
    assert(text::texts(lines@) =~= text::texts(before).push(line@));
}

fn show_active(steps: &Vec<StepLogEntry>, times: &Vec<ShownTimes>) -> (res: Vec<String>)
    requires
        steps.len() == times.len(),
    ensures
        text::texts(res@) == active_texts(protocol::step_views(steps@), times@),
{
    let ghost all = active_texts(protocol::step_views(steps@), times@);
    let mut res: Vec<String> = Vec::new();
    let mut i: usize = 0;
    assert(text::texts(res@) =~= all.take(0));
    while i < steps.len()
        invariant
            i <= steps.len(),
            steps.len() == times.len(),
            all == active_texts(protocol::step_views(steps@), times@),
            text::texts(res@) == all.take(i as int),
        decreases steps.len() - i,
    {
        say(
            &mut res,
            steps[i].name.clone().concat(" (").concat(times[i].step.as_str()).concat("s/").concat(
                times[i].job.as_str(),
            ).concat("s)"),
        );
        assert(all[i as int] == active_text(
            protocol::step_views(steps@)[i as int].name,
            times@[i as int],
        ));
        assert(all.take(i + 1) =~= all.take(i as int).push(all[i as int]));
        i = i + 1;
    }
    assert(all.take(i as int) =~= all);
    res
}

fn list_failed(steps: &Vec<StepLogEntry>, jobs: &Vec<JobLogEntry>) -> (res: Vec<String>)
    ensures
        text::texts(res@) == failed_steps(protocol::step_views(steps@)) + failed_jobs(
            protocol::job_views(jobs@),
        ),
{
    let ghost step_views = protocol::step_views(steps@);
    let ghost job_views = protocol::job_views(jobs@);
    let mut res: Vec<String> = Vec::new();
    let mut i: usize = 0;
    proof {
        assert(step_views.take(0) =~= seq![]);
        assert(text::texts(res@) =~= seq![]);
    }
    while i < steps.len()
        invariant
            i <= steps.len(),
            step_views == protocol::step_views(steps@),
            text::texts(res@) == failed_steps(step_views.take(i as int)),
        decreases steps.len() - i,
    {
        proof {
            assert(step_views.take(i + 1).drop_last() =~= step_views.take(i as int));
            assert(step_views.take(i + 1).last() == steps@[i as int]@);
        }
        if steps[i].status == (StepStatus::Failed { ignored: false }) {
            say(&mut res, steps[i].name.clone());
        }
        i = i + 1;
    }
    let ghost first = failed_steps(step_views);
    let mut j: usize = 0;
    proof {
        assert(step_views.take(i as int) =~= step_views);
        assert(job_views.take(0) =~= seq![]);
        assert(first + seq![] =~= first);
    }
    while j < jobs.len()
        invariant
            j <= jobs.len(),
            job_views == protocol::job_views(jobs@),
            text::texts(res@) == first + failed_jobs(job_views.take(j as int)),
        decreases jobs.len() - j,
    {
        let ghost earlier = failed_jobs(job_views.take(j as int));
        proof {
            assert(job_views.take(j + 1).drop_last() =~= job_views.take(j as int));
            assert(job_views.take(j + 1).last() == jobs@[j as int]@);
            assert(first + earlier.push(jobs@[j as int]@.name) =~= (first + earlier).push(
                jobs@[j as int]@.name,
            ));
        }
        if jobs[j].status == JobStatus::Failed {
            say(&mut res, jobs[j].name.clone());
        }
        j = j + 1;
    }
    assert(job_views.take(j as int) =~= job_views);
    res
}

fn show_head(run: &MQRunInfo) -> (res: Vec<String>)
    ensures
        text::texts(res@) == status_head(run@),
{
    let mut lines: Vec<String> = Vec::new();
    lines.push(String::from_str("Run ID: ").concat(run.id.display().as_str()));
    lines.push(
        String::from_str("Candidate: ").concat(run.candidate.user.as_str()).concat(
            " (commit: ",
        ).concat(run.candidate.commit_id.as_str()).concat(")"),
    );
    lines.push(String::from_str("Status: ").concat(run.status.display().as_str()));
    lines.push(String::from_str("Queued at: ").concat(show_time(run.queued_at).as_str()));
    assert(text::texts(lines@) =~= status_head(run@));
    lines
}

/// What is said about a run. The times are those of the active steps.
pub fn show_status(run: &MQRunInfo, times: &Vec<ShownTimes>) -> (res: Vec<String>)
    requires
        times.len() == shown_steps(run@).len(),
    ensures
        text::texts(res@) == status_lines(run@, times@),
{
    let mut lines = show_head(run);
    match run.started_at {
        Some(t) => {
            say(&mut lines, String::from_str("Started at: ").concat(show_time(t).as_str()));
        },
        None => {},
    }
    let active = active_steps(run);
    assert(active.len() == protocol::step_views(active@).len());
    if active.len() > 0 {
        let shown = show_active(&active, times);
        say(
            &mut lines,
            String::from_str("Active Steps: ").concat(text::join(&shown, ", ").as_str()),
        );
    }
    match run.completed_at {
        Some(t) => {
            say(&mut lines, String::from_str("Completed at: ").concat(show_time(t).as_str()));
        },
        None => {},
    }
    if !run.test_merge_output.as_str().is_empty() {
        let title = match run.merge_mode {
            MergeStyle::Rebase => "\n### Pre-check Rebase\n",
            MergeStyle::Merge => "\n### Pre-check Merge\n",
        };
        say(&mut lines, title.to_owned());
        say(&mut lines, run.test_merge_output.clone());
    }
    if !run.output.as_str().is_empty() {
        say(&mut lines, "\n### Check Output\n".to_owned());
        say(&mut lines, run.output.clone());
    }
    let failed = list_failed(&run.completed_steps, &run.completed_jobs);
    assert(failed.len() == text::texts(failed@).len());
    if failed.len() > 0 {
        say(
            &mut lines,
            String::from_str("\nFailed: ").concat(text::join(&failed, ", ").as_str()),
        );
    }
    lines
}

/// A run's status names failures exactly where there are any: a step whose
/// failure counts, or a job that failed.
pub proof fn law_failures_are_shown(run: MQRunView)
    ensures
        failed_items(run).len() > 0 <==> (protocol::any_step_failed(run.completed_steps) || exists|
            i: int,
        |
            0 <= i < run.completed_jobs.len() && (#[trigger] run.completed_jobs[i]).status
                == JobStatus::Failed),
{
    lemma_failed_steps(run.completed_steps);
    lemma_failed_jobs(run.completed_jobs);
}

proof fn lemma_failed_steps(steps: Seq<StepLogView>)
    ensures
        failed_steps(steps).len() > 0 <==> protocol::any_step_failed(steps),
    decreases steps.len(),
{
    if steps.len() > 0 {
        let rest = steps.drop_last();
        lemma_failed_steps(rest);
        if protocol::any_step_failed(rest) {
            let i = choose|i: int| 0 <= i < rest.len() && protocol::fails_job(
                #[trigger] rest[i].status,
            );
            assert(protocol::fails_job(steps[i].status));
        }
        if protocol::any_step_failed(steps) && !protocol::fails_job(steps.last().status) {
            let i = choose|i: int| 0 <= i < steps.len() && protocol::fails_job(
                #[trigger] steps[i].status,
            );
            assert(protocol::fails_job(rest[i].status));
        }
        if protocol::fails_job(steps.last().status) {
            assert(protocol::fails_job(steps[steps.len() - 1].status));
        }
    }
}

proof fn lemma_failed_jobs(jobs: Seq<JobLogView>)
    ensures
        failed_jobs(jobs).len() > 0 <==> exists|i: int|
            0 <= i < jobs.len() && (#[trigger] jobs[i]).status == JobStatus::Failed,
    decreases jobs.len(),
{
    if jobs.len() > 0 {
        let rest = jobs.drop_last();
        lemma_failed_jobs(rest);
        assert(forall|i: int| 0 <= i < rest.len() ==> rest[i] == jobs[i]);
        if jobs.last().status == JobStatus::Failed {
            assert(jobs[jobs.len() - 1].status == JobStatus::Failed);
        } else if exists|i: int| 0 <= i < jobs.len() && (#[trigger] jobs[i]).status
            == JobStatus::Failed {
            let i = choose|i: int| 0 <= i < jobs.len() && (#[trigger] jobs[i]).status
                == JobStatus::Failed;
            assert(rest[i].status == JobStatus::Failed);
        }
    }
}

/// The line that stands alone where a condition holds.
pub open spec fn line_if(shown: bool, line: Seq<char>) -> Seq<Seq<char>> {
    if shown {
        seq![line]
    } else {
        Seq::empty()
    }
}

/// What is said about a run, line by line and in this order: its number, its
/// candidate, how it stands and since when it was queued; then, where there are
/// any, when it started, its active steps, when it completed, the log of its
/// integration, its output and what failed.
pub proof fn law_statuses_are_shown_in_order(run: MQRunView, times: Seq<ShownTimes>)
    ensures
        ({
            let head = seq![
                "Run ID: "@ + text::decimal(run.id.0 as nat),
                "Candidate: "@ + run.candidate.user + " (commit: "@ + run.candidate.commit_id
                    + ")"@,
                "Status: "@ + mq_protocol::status_text(run.status),
                "Queued at: "@ + time_text(run.queued_at),
            ];
            let active = shown_steps(run);
            let failed = failed_steps(run.completed_steps) + failed_jobs(run.completed_jobs);
            let title = if run.merge_mode == MergeStyle::Rebase {
                "\n### Pre-check Rebase\n"@
            } else {
                "\n### Pre-check Merge\n"@
            };
            status_lines(run, times) == head + line_if(
                run.started_at is Some,
                "Started at: "@ + time_text(run.started_at->0),
            ) + line_if(
                active.len() > 0,
                "Active Steps: "@ + text::joined(active_texts(active, times), ", "@),
            ) + line_if(
                run.completed_at is Some,
                "Completed at: "@ + time_text(run.completed_at->0),
            ) + line_if(run.test_merge_output.len() > 0, title) + line_if(
                run.test_merge_output.len() > 0,
                run.test_merge_output,
            ) + line_if(run.output.len() > 0, "\n### Check Output\n"@) + line_if(
                run.output.len() > 0,
                run.output,
            ) + line_if(failed.len() > 0, "\nFailed: "@ + text::joined(failed, ", "@))
        }),
{
    assert(status_head(run) =~= seq![
        "Run ID: "@ + text::decimal(run.id.0 as nat),
        "Candidate: "@ + run.candidate.user + " (commit: "@ + run.candidate.commit_id + ")"@,
        "Status: "@ + mq_protocol::status_text(run.status),
        "Queued at: "@ + time_text(run.queued_at),
    ]);
    assert forall|lines: Seq<Seq<char>>, shown: bool, line: Seq<char>| #[trigger]
        with_line(lines, shown, line) == lines + line_if(shown, line) by {
        assert(with_line(lines, shown, line) =~= lines + line_if(shown, line));
    }
}

/// The active steps of a run are those of its active jobs that are running, in
/// their order, while the run itself is running. Each is shown with its name and
/// with two times: its own and its job's.
pub proof fn law_active_steps_are_running(
    run: MQRunView,
    steps: Seq<StepLogView>,
    step: StepLogView,
    times: Seq<ShownTimes>,
    i: int,
)
    ensures
        run.started_at is Some && run.status == MQRunStatus::Running ==> shown_steps(run)
            == running_steps(run.active_jobs),
        run.started_at is None || run.status != MQRunStatus::Running ==> shown_steps(run).len()
            == 0,
        running_steps(Seq::empty()).len() == 0,
        step.status == StepStatus::Running ==> running_steps(steps.push(step)) == running_steps(
            steps,
        ).push(step),
        step.status != StepStatus::Running ==> running_steps(steps.push(step)) == running_steps(
            steps,
        ),
        active_texts(steps, times).len() == steps.len(),
        0 <= i < steps.len() ==> active_texts(steps, times)[i] == steps[i].name + " ("@
            + times[i].step@ + "s/"@ + times[i].job@ + "s)"@,
{
    assert(steps.push(step).drop_last() =~= steps);
}

/// What failed in a run is every step whose failure counts and every job that
/// failed, by name and in their order, and nothing else.
pub proof fn law_failures_are_listed_in_order(
    steps: Seq<StepLogView>,
    step: StepLogView,
    jobs: Seq<JobLogView>,
    job: JobLogView,
)
    ensures
        failed_steps(Seq::empty()).len() == 0,
        step.status == (StepStatus::Failed { ignored: false }) ==> failed_steps(steps.push(step))
            == failed_steps(steps).push(step.name),
        step.status != (StepStatus::Failed { ignored: false }) ==> failed_steps(steps.push(step))
            == failed_steps(steps),
        failed_jobs(Seq::empty()).len() == 0,
        job.status == JobStatus::Failed ==> failed_jobs(jobs.push(job)) == failed_jobs(jobs).push(
            job.name,
        ),
        job.status != JobStatus::Failed ==> failed_jobs(jobs.push(job)) == failed_jobs(jobs),
{
    assert(steps.push(step).drop_last() =~= steps);
    assert(jobs.push(job).drop_last() =~= jobs);
}

/// The row of a run holds, under the heading of each column, its number, how it
/// stands, its change and its commit in short, what the user named and when it
/// was queued.
pub proof fn law_rows_stand_under_their_headings(runs: Seq<MQRunView>, i: int)
    requires
        0 <= i < runs.len(),
    ensures
        headings() =~= seq!["ID"@, "Status"@, "Change"@, "Commit"@, "Candidate"@, "Queued"@],
        run_rows(runs).len() == runs.len(),
        run_rows(runs)[i] =~= seq![
            text::decimal(runs[i].id.0 as nat),
            mq_protocol::status_text(runs[i].status),
            short(runs[i].candidate.change_id),
            short(runs[i].candidate.commit_id),
            runs[i].candidate.user,
            time_text(runs[i].queued_at),
        ],
        time_text(runs[i].queued_at) == rfc3339_seconds(
            (runs[i].queued_at / 1_000_000_000) as u64,
        ),
        can_shorten(runs[i].candidate.change_id) ==> text::first_bytes(
            runs[i].candidate.change_id,
            8,
        ) == Some(short(runs[i].candidate.change_id)),
{
}

/// A table is printed as it was rendered, with a line of dashes under its first
/// line.
pub proof fn law_tables_have_a_line_under_their_head(table: Seq<char>, i: int)
    ensures
        text::lines(table).len() == 0 ==> framed(table).len() == 0,
        text::lines(table).len() > 0 ==> {
            &&& framed(table).len() == text::lines(table).len() + 1
            &&& framed(table)[0] == text::lines(table)[0]
            &&& framed(table)[1] == text::dashes(text::lines(table)[0])
            &&& 1 <= i < text::lines(table).len() ==> framed(table)[i + 1] == text::lines(table)[i]
        },
{
}

/// A time that has passed counts in full, and one that is yet to come not at all.
pub proof fn law_times_count_once_they_have_passed(earlier: Timestamp, now: Timestamp)
    ensures
        earlier <= now ==> earlier + time_since(earlier, now) == now,
        earlier > now ==> time_since(earlier, now) == 0,
{
}

/// An active step is shown with its own time and with its job's, or its own again
/// where it is not known when its job started.
pub proof fn law_steps_are_shown_with_two_times(
    step: StepLogEntry,
    now: Timestamp,
    res: (u64, u64),
)
    requires
        call_ensures(elapsed, (&step, now), res),
    ensures
        step.ts <= now ==> step.ts + res.0 == now,
        step.ts > now ==> res.0 == 0,
        step.job_started_at matches Some(begun) ==> {
            &&& begun <= now ==> begun + res.1 == now
            &&& begun > now ==> res.1 == res.0
        },
        step.job_started_at is None ==> res.1 == res.0,
{
}

} // verus!
