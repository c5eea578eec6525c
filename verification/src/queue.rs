//! The runs of the merge queue.

use vstd::prelude::*;

use crate::config::{MQHooksConfig, MQHooksView, MergeStyle};
use crate::mq_protocol;
use crate::mq_protocol::{MQRunInfo, MQRunStatus, MQRunView, RunId};
use crate::protocol;
use crate::protocol::{StepLogEntry, StepLogView, StepStatus, Timestamp};
use crate::revision::{ResolvedRevision, ResolvedRevisionView};
use crate::worker;
use crate::worker::{JobStates, JobStatesView, JobSteps};

verus! {

/// A run, and whether it is being processed.
#[derive(Debug)]
pub struct RunEntry {
    pub info: MQRunInfo,
    /// Whether its jobs are followed as they run.
    pub followed: bool,
}

/// What a [`RunEntry`] holds.
pub struct RunEntryView {
    pub info: MQRunView,
    pub followed: bool,
}

impl View for RunEntry {
    type V = RunEntryView;

    open spec fn view(&self) -> RunEntryView {
        RunEntryView { info: self.info@, followed: self.followed }
    }
}

/// The state of the merge queue: its settings and all runs, the oldest first.
#[derive(Debug)]
pub struct MQState {
    root_dir: String,
    base_branch: String,
    merge_mode: MergeStyle,
    hooks: MQHooksConfig,
    runs: Vec<RunEntry>,
}

/// What an [`MQState`] holds.
pub struct MQStateView {
    pub root_dir: Seq<char>,
    pub base_branch: Seq<char>,
    pub merge_mode: MergeStyle,
    pub hooks: MQHooksView,
    pub runs: Seq<RunEntryView>,
}

impl View for MQState {
    type V = MQStateView;

    closed spec fn view(&self) -> MQStateView {
        MQStateView {
            root_dir: self.root_dir@,
            base_branch: self.base_branch@,
            merge_mode: self.merge_mode,
            hooks: self.hooks@,
            runs: self.runs@.map_values(|r: RunEntry| r@),
        }
    }
}

impl MQStateView {
    /// What every operation keeps: runs are numbered from one in the order they
    /// were submitted.
    pub open spec fn numbered(self) -> bool {
        forall|i: int| 0 <= i < self.runs.len() ==> (#[trigger] self.runs[i]).info.id.0 == i + 1
    }

    /// Whether there is a run of the given number.
    pub open spec fn has_run(self, id: RunId) -> bool {
        1 <= id.0 <= self.runs.len()
    }

    /// The run of the given number.
    pub open spec fn run(self, id: RunId) -> RunEntryView {
        self.runs[id.0 - 1]
    }

    /// The state with another entry for a run.
    pub open spec fn with_run(self, id: RunId, entry: RunEntryView) -> MQStateView {
        MQStateView { runs: self.runs.update(id.0 - 1, entry), ..self }
    }
}

/// A run that was just submitted.
pub open spec fn new_run(
    id: RunId,
    candidate: ResolvedRevisionView,
    no_merge: bool,
    merge_mode: MergeStyle,
    now: Timestamp,
) -> MQRunView {
    MQRunView {
        id,
        candidate,
        status: MQRunStatus::Queued,
        queued_at: now,
        started_at: None,
        completed_at: None,
        merge_mode,
        test_merge_output: seq![],
        output: seq![],
        active_jobs: seq![],
        completed_steps: seq![],
        completed_jobs: seq![],
        no_merge,
    }
}

/// A run whose processing begins.
pub open spec fn started(run: MQRunView, now: Timestamp) -> MQRunView {
    MQRunView { status: MQRunStatus::Running, started_at: Some(now), ..run }
}

/// The place after the last running step, or zero where none is running.
pub open spec fn running_end(steps: Seq<StepLogView>) -> int
    decreases steps.len(),
{
    if steps.len() == 0 {
        0
    } else if steps.last().status == StepStatus::Running {
        steps.len() as int
    } else {
        running_end(steps.drop_last())
    }
}

/// How a running job is shown: by its running step, else by its name.
pub open spec fn active_job(
    job: Seq<char>,
    steps: Seq<StepLogView>,
    now: Timestamp,
) -> StepLogView {
    let job_started_at = if steps.len() > 0 {
        steps[0].ts
    } else {
        now
    };
    let end = running_end(steps);
    if end > 0 {
        StepLogView {
            ts: steps[end - 1].ts,
            name: job + "/"@ + steps[end - 1].name,
            status: StepStatus::Running,
            job_started_at: Some(job_started_at),
        }
    } else {
        StepLogView {
            ts: job_started_at,
            name: job,
            status: StepStatus::Running,
            job_started_at: Some(job_started_at),
        }
    }
}

/// The jobs that reported steps and have not ended.
pub open spec fn active_jobs(states: JobStatesView, now: Timestamp) -> Seq<StepLogView> {
    active_among(states, states.steps, now)
}

/// Those of the given jobs that have not ended.
pub open spec fn active_among(
    states: JobStatesView,
    jobs: Seq<(Seq<char>, Seq<StepLogView>)>,
    now: Timestamp,
) -> Seq<StepLogView>
    decreases jobs.len(),
{
    if jobs.len() == 0 {
        seq![]
    } else {
        let earlier = active_among(states, jobs.drop_last(), now);
        if worker::entry(states.completions, jobs.last().0) is None {
            earlier.push(active_job(jobs.last().0, jobs.last().1, now))
        } else {
            earlier
        }
    }
}

/// A run as it is shown: while it is processed, with the jobs that are running.
pub open spec fn shown(
    entry: RunEntryView,
    states: Option<JobStatesView>,
    now: Timestamp,
) -> MQRunView {
    if entry.info.started_at is Some && entry.info.completed_at is None && entry.followed && states
        is Some {
        MQRunView { active_jobs: active_jobs(states->0, now), ..entry.info }
    } else {
        entry.info
    }
}

/// The runs that are listed: the newest first, and no more than the limit.
pub open spec fn listed(runs: Seq<RunEntryView>, limit: Option<usize>) -> Seq<MQRunView> {
    let all = runs.map_values(|r: RunEntryView| r.info).reverse();
    match limit {
        Some(n) => if n < all.len() {
            all.take(n as int)
        } else {
            all
        },
        None => all,
    }
}

/// What is known of the jobs of a run, where anything is.
pub open spec fn states_view(states: Option<&JobStates>) -> Option<JobStatesView> {
    match states {
        Some(s) => Some(s@),
        None => None,
    }
}

fn find_running(steps: &Vec<StepLogEntry>) -> (res: usize)
    ensures
        res == running_end(protocol::step_views(steps@)),
        res <= steps.len(),
{
    let ghost views = protocol::step_views(steps@);
    let mut i: usize = steps.len();
    assert(views.take(i as int) =~= views);
    while i > 0
        invariant
            i <= steps.len(),
            views == protocol::step_views(steps@),
            running_end(views.take(i as int)) == running_end(views),
        decreases i,
    {
        assert(views[i - 1] == steps@[i - 1]@);
        assert(views.take(i as int).last() == views[i - 1]);
        assert(views.take(i as int).drop_last() =~= views.take(i - 1));
        if steps[i - 1].status == StepStatus::Running {
            return i;
        }
        i = i - 1;
    }
    i
}

fn show_job(job: &JobSteps, now: Timestamp) -> (res: StepLogEntry)
    ensures
        res@ == active_job(job.job@, protocol::step_views(job.steps@), now),
{
    let ghost views = protocol::step_views(job.steps@);
    let job_started_at: Timestamp = if job.steps.len() > 0 {
        assert(views[0] == job.steps@[0]@);
        job.steps[0].ts
    } else {
        now
    };
    let end = find_running(&job.steps);
    if end > 0 {
        assert(views[end - 1] == job.steps@[end - 1]@);
        let step = &job.steps[end - 1];
        StepLogEntry {
            ts: step.ts,
            name: job.job.clone().concat("/").concat(step.name.as_str()),
            status: StepStatus::Running,
            job_started_at: Some(job_started_at),
        }
    } else {
        StepLogEntry {
            ts: job_started_at,
            name: job.job.clone(),
            status: StepStatus::Running,
            job_started_at: Some(job_started_at),
        }
    }
}

fn show_jobs(states: &JobStates, now: Timestamp) -> (res: Vec<StepLogEntry>)
    ensures
        protocol::step_views(res@) == active_jobs(states@, now),
{
    let jobs = states.step_jobs();
    let ghost all = states@.steps;
    let mut res: Vec<StepLogEntry> = Vec::new();
    let mut i: usize = 0;
    proof {
        assert(protocol::step_views(res@) =~= seq![]);
        assert(all.take(0) =~= seq![]);
    }
    while i < jobs.len()
        invariant
            i <= jobs.len(),
            all == states@.steps,
            all == jobs@.map_values(|j: JobSteps| (j.job@, protocol::step_views(j.steps@))),
            protocol::step_views(res@) == active_among(states@, all.take(i as int), now),
        decreases jobs.len() - i,
    {
        let ghost before = res@;
        proof {
            assert(all.take(i + 1).drop_last() =~= all.take(i as int));
            assert(all.take(i + 1).last() == (
                jobs@[i as int].job@,
                protocol::step_views(jobs@[i as int].steps@),
            ));
        }
        if states.completion(jobs[i].job.as_str()).is_none() {
            let shown = show_job(&jobs[i], now);
            res.push(shown);
            assert(protocol::step_views(res@) =~= protocol::step_views(before).push(shown@));
        }
        i = i + 1;
    }
    assert(all.take(i as int) =~= all);
    res
}

impl MQState {
    /// A merge queue without runs.
    pub fn new(root_dir: String, base_branch: String, merge_mode: MergeStyle, hooks: MQHooksConfig) -> (res:
        Self)
        ensures
            res@ == (MQStateView {
                root_dir: root_dir@,
                base_branch: base_branch@,
                merge_mode,
                hooks: hooks@,
                runs: seq![],
            }),
            res@.numbered(),
    {
        let res = MQState { root_dir, base_branch, merge_mode, hooks, runs: Vec::new() };
        assert(res@.runs =~= seq![]);
        res
    }

    /// Whether there is no number left for another run.
    pub fn is_full(&self) -> (res: bool)
        ensures
            res == (self@.runs.len() >= u64::MAX),
    {
        assert(self@.runs.len() == self.runs.len());
        self.runs.len() as u64 == u64::MAX
    }

    /// Submits a run. It gets the next number.
    pub fn queue_run(&mut self, candidate: ResolvedRevision, no_merge: bool, now: Timestamp) -> (res:
        MQRunInfo)
        requires
            old(self)@.runs.len() < u64::MAX,
        ensures
            res@ == new_run(
                RunId((old(self)@.runs.len() + 1) as u64),
                candidate@,
                no_merge,
                old(self)@.merge_mode,
                now,
            ),
            final(self)@ == (MQStateView {
                runs: old(self)@.runs.push(RunEntryView { info: res@, followed: false }),
                ..old(self)@
            }),
            old(self)@.numbered() ==> final(self)@.numbered(),
    {
        let ghost before = self@;
        let number: u64 = self.runs.len() as u64;
        let run_id = RunId(number + 1);
        let info = MQRunInfo {
            id: run_id,
            candidate,
            status: MQRunStatus::Queued,
            queued_at: now,
            started_at: None,
            completed_at: None,
            merge_mode: self.merge_mode,
            test_merge_output: String::new(),
            output: String::new(),
            active_jobs: Vec::new(),
            completed_steps: Vec::new(),
            completed_jobs: Vec::new(),
            no_merge,
        };
        assert(protocol::step_views(info.active_jobs@) =~= seq![]);
        assert(protocol::step_views(info.completed_steps@) =~= seq![]);
        assert(protocol::job_views(info.completed_jobs@) =~= seq![]);
        let copy = info.clone();
        self.runs.push(RunEntry { info: copy, followed: false });
        assert(self@.runs =~= before.runs.push(RunEntryView { info: info@, followed: false }));
        info
    }

    /// The place of a run, where there is one of the given number.
    fn place_of(&self, run_id: RunId) -> (res: Option<usize>)
        ensures
            res is Some <==> self@.has_run(run_id),
            res matches Some(i) ==> i == run_id.0 - 1 && i < self.runs.len(),
    {
        if run_id.0 == 0 || run_id.0 > self.runs.len() as u64 {
            None
        } else {
            Some((run_id.0 - 1) as usize)
        }
    }

    /// Begins to process a run that is queued. The result is the run, the hooks
    /// and the integration mode to process it with; none where there is no such
    /// run or it was begun before.
    pub fn start_run(&mut self, run_id: RunId, now: Timestamp) -> (res: Option<
        (MQRunInfo, MQHooksConfig, MergeStyle),
    >)
        ensures
            if old(self)@.has_run(run_id) && old(self)@.run(run_id).info.started_at is None {
                &&& res matches Some((info, hooks, mode))
                &&& info@ == started(old(self)@.run(run_id).info, now)
                &&& hooks@ == old(self)@.hooks
                &&& mode == old(self)@.merge_mode
                &&& final(self)@ == old(self)@.with_run(
                    run_id,
                    RunEntryView { info: info@, followed: true },
                )
            } else {
                res is None && final(self)@ == old(self)@
            },
            old(self)@.numbered() ==> final(self)@.numbered(),
    {
        let ghost before = self@;
        let i = match self.place_of(run_id) {
            Some(i) => i,
            None => return None,
        };
        assert(before.runs[i as int] == self.runs@[i as int]@);
        if self.runs[i].info.started_at.is_some() {
            return None;
        }
        let mut info = self.runs[i].info.clone();
        info.status = MQRunStatus::Running;
        info.started_at = Some(now);
        let copy = info.clone();
        self.runs.set(i, RunEntry { info: copy, followed: true });
        assert(self@.runs =~= before.with_run(
            run_id,
            RunEntryView { info: info@, followed: true },
        ).runs);
        Some((info, self.hooks.clone(), self.merge_mode))
    }

    /// Stores how a run ended, under its number.
    pub fn complete_run(&mut self, run_info: MQRunInfo)
        ensures
            final(self)@ == (if old(self)@.has_run(run_info.id) {
                old(self)@.with_run(
                    run_info.id,
                    RunEntryView { info: run_info@, followed: false },
                )
            } else {
                old(self)@
            }),
            old(self)@.numbered() ==> final(self)@.numbered(),
    {
        let ghost before = self@;
        let run_id = run_info.id;
        match self.place_of(run_id) {
            Some(i) => {
                self.runs.set(i, RunEntry { info: run_info, followed: false });
                assert(self@.runs =~= before.with_run(
                    run_id,
                    RunEntryView { info: run_info@, followed: false },
                ).runs);
            },
            None => {},
        }
    }

    /// A run by its number. While it is processed, the jobs that are running
    /// are filled in from `states`.
    pub fn get_run(&self, run_id: RunId, states: Option<&JobStates>, now: Timestamp) -> (res: Option<
        MQRunInfo,
    >)
        ensures
            if self@.has_run(run_id) {
                res matches Some(info) && info@ == shown(
                    self@.run(run_id),
                    states_view(states),
                    now,
                )
            } else {
                res is None
            },
    {
        let i = match self.place_of(run_id) {
            Some(i) => i,
            None => return None,
        };
        assert(self@.runs[i as int] == self.runs@[i as int]@);
        let entry = &self.runs[i];
        let mut info = entry.info.clone();
        if info.started_at.is_some() && info.completed_at.is_none() && entry.followed {
            match states {
                Some(s) => {
                    info.active_jobs = show_jobs(s, now);
                },
                None => {},
            }
        }
        Some(info)
    }

    /// The runs, the newest first, and no more than the limit.
    pub fn list_runs(&self, limit: Option<usize>) -> (res: Vec<MQRunInfo>)
        ensures
            mq_protocol::run_views(res@) == listed(self@.runs, limit),
    {
        let count: usize = match limit {
            Some(n) => if n < self.runs.len() {
                n
            } else {
                self.runs.len()
            },
            None => self.runs.len(),
        };
        let ghost all = self@.runs.map_values(|r: RunEntryView| r.info).reverse();
        let mut res: Vec<MQRunInfo> = Vec::new();
        let mut i: usize = 0;
        while i < count
            invariant
                i <= count <= self.runs.len(),
                all == self@.runs.map_values(|r: RunEntryView| r.info).reverse(),
                mq_protocol::run_views(res@) == all.take(i as int),
            decreases count - i,
        {
            let ghost before = res@;
            let place: usize = self.runs.len() - 1 - i;
            let copy = self.runs[place].info.clone();
            proof {
                assert(all[i as int] == self@.runs[place as int].info);
                assert(self@.runs[place as int] == self.runs@[place as int]@);
            }
            res.push(copy);
            proof {
                assert(mq_protocol::run_views(res@) =~= mq_protocol::run_views(before).push(copy@));
                assert(mq_protocol::run_views(res@) =~= all.take(i + 1));
            }
            i = i + 1;
        }
        proof {
            assert(self@.runs.len() == self.runs.len());
            assert(all.take(self@.runs.len() as int) =~= all);
        }
        res
    }

    /// The project's root.
    pub fn root_dir(&self) -> (res: &str)
        ensures
            res@ == self@.root_dir,
    {
        self.root_dir.as_str()
    }

    /// The branch that runs are checked against and published to.
    pub fn base_branch(&self) -> (res: &str)
        ensures
            res@ == self@.base_branch,
    {
        self.base_branch.as_str()
    }
}

/// What is shown of a run that was stored after it ended is what was stored.
pub proof fn law_completed_run_reads_back(
    state: MQStateView,
    run: MQRunView,
    states: Option<JobStatesView>,
    now: Timestamp,
)
    requires
        state.has_run(run.id),
    ensures
        shown(
            state.with_run(run.id, RunEntryView { info: run, followed: false }).run(run.id),
            states,
            now,
        ) == run,
{
}

/// Submitting a run leaves the runs before it as they were, and its number is
/// larger than theirs.
pub proof fn law_run_numbers_grow(
    state: MQStateView,
    candidate: ResolvedRevisionView,
    no_merge: bool,
    now: Timestamp,
    earlier: RunId,
)
    requires
        state.numbered(),
        state.runs.len() < u64::MAX,
        state.has_run(earlier),
    ensures
        ({
            let id = RunId((state.runs.len() + 1) as u64);
            let run = new_run(id, candidate, no_merge, state.merge_mode, now);
            let after = MQStateView {
                runs: state.runs.push(RunEntryView { info: run, followed: false }),
                ..state
            };
            &&& after.numbered()
            &&& after.run(id).info == run
            &&& after.run(earlier) == state.run(earlier)
            &&& earlier.0 < id.0
        }),
{
}

/// A run is processed once: after it was begun, it counts as begun, and nothing
/// of it but its status and its time has changed.
pub proof fn law_run_starts_once(state: MQStateView, id: RunId, now: Timestamp)
    requires
        state.has_run(id),
    ensures
        ({
            let info = started(state.run(id).info, now);
            let after = state.with_run(id, RunEntryView { info, followed: true });
            &&& after.run(id).info.started_at is Some
            &&& after.run(id).info.status == MQRunStatus::Running
            &&& after.run(id).info == (MQRunView {
                status: MQRunStatus::Running,
                started_at: Some(now),
                ..state.run(id).info
            })
        }),
{
}

/// A list has the newest run first: each number is smaller than the one before.
pub proof fn law_list_is_newest_first(state: MQStateView, limit: Option<usize>, i: int, j: int)
    requires
        state.numbered(),
        0 <= i < j < listed(state.runs, limit).len(),
    ensures
        listed(state.runs, limit)[i].id.0 > listed(state.runs, limit)[j].id.0,
{
    let n = state.runs.len();
    assert(state.runs[n - 1 - i].info.id.0 == n - i);
    assert(state.runs[n - 1 - j].info.id.0 == n - j);
}

/// A list has no more runs than its limit, and where it has fewer, or has no
/// limit, it has them all.
pub proof fn law_list_is_limited(state: MQStateView, limit: Option<usize>)
    ensures
        limit matches Some(n) ==> listed(state.runs, limit).len() <= n,
        limit is None || listed(state.runs, limit).len() < limit->0 ==> listed(
            state.runs,
            limit,
        ).len() == state.runs.len(),
{
}

/// A run that was just submitted waits with nothing known of it but what was
/// submitted. One that was begun runs from then on, and the rest of it is as it
/// was.
pub proof fn law_runs_wait_until_they_begin(
    id: RunId,
    candidate: ResolvedRevisionView,
    no_merge: bool,
    merge_mode: MergeStyle,
    queued: Timestamp,
    begun: Timestamp,
)
    ensures
        ({
            let run = new_run(id, candidate, no_merge, merge_mode, queued);
            &&& run.id == id
            &&& run.candidate == candidate
            &&& run.status == MQRunStatus::Queued
            &&& run.queued_at == queued
            &&& run.started_at is None
            &&& run.completed_at is None
            &&& run.merge_mode == merge_mode
            &&& run.test_merge_output.len() == 0
            &&& run.output.len() == 0
            &&& run.active_jobs.len() == 0
            &&& run.completed_steps.len() == 0
            &&& run.completed_jobs.len() == 0
            &&& run.no_merge == no_merge
            &&& started(run, begun).status == MQRunStatus::Running
            &&& started(run, begun).started_at == Some(begun)
            &&& started(run, begun).completed_at is None
            &&& started(run, begun).id == id
            &&& started(run, begun).candidate == candidate
            &&& started(run, begun).queued_at == queued
            &&& started(run, begun).merge_mode == merge_mode
            &&& started(run, begun).no_merge == no_merge
            &&& started(run, begun).output.len() == 0
        }),
{
}

/// A run is found under its own number, and storing one leaves all others as they
/// were.
pub proof fn law_runs_are_found_by_number(
    state: MQStateView,
    id: RunId,
    entry: RunEntryView,
    other: RunId,
)
    requires
        state.numbered(),
        state.has_run(id),
        state.has_run(other),
    ensures
        state.run(id).info.id == id,
        state.with_run(id, entry).run(id) == entry,
        other != id ==> state.with_run(id, entry).run(other) == state.run(other),
        state.with_run(id, entry).runs.len() == state.runs.len(),
        state.with_run(id, entry).has_run(other),
        !state.has_run(RunId(0u64)),
        forall|n: u64| n > state.runs.len() ==> !#[trigger] state.has_run(RunId(n)),
{
    assert(state.runs[id.0 - 1].info.id.0 == id.0);
}

/// A running job is shown by the last of its steps that is running, under the
/// names of both, else by its own name; and as begun with its first step, or
/// now where it has none.
pub proof fn law_running_jobs_are_shown_by_their_step(
    job: Seq<char>,
    steps: Seq<StepLogView>,
    now: Timestamp,
    i: int,
)
    requires
        0 <= i <= steps.len(),
        i > 0 ==> steps[i - 1].status == StepStatus::Running,
        forall|j: int| i <= j < steps.len() ==> (#[trigger] steps[j]).status
            != StepStatus::Running,
    ensures
        ({
            let shown = active_job(job, steps, now);
            let begun = if steps.len() > 0 {
                steps[0].ts
            } else {
                now
            };
            &&& shown.status == StepStatus::Running
            &&& shown.job_started_at == Some(begun)
            &&& i > 0 ==> shown.ts == steps[i - 1].ts && shown.name == job + "/"@ + steps[i
                - 1].name
            &&& i == 0 ==> shown.ts == begun && shown.name == job
        }),
{
    lemma_running_end(steps, i);
}

proof fn lemma_running_end(steps: Seq<StepLogView>, i: int)
    requires
        0 <= i <= steps.len(),
        i > 0 ==> steps[i - 1].status == StepStatus::Running,
        forall|j: int| i <= j < steps.len() ==> (#[trigger] steps[j]).status
            != StepStatus::Running,
    ensures
        running_end(steps) == i,
    decreases steps.len(),
{
    if steps.len() > 0 {
        assert(steps.last() == steps[steps.len() - 1]);
        if i < steps.len() {
            lemma_running_end(steps.drop_last(), i);
        }
    }
}

/// The jobs that are shown as running are those that reported steps and have not
/// ended, in the order of their first steps. No other job is shown.
pub proof fn law_running_jobs_have_not_ended(
    states: JobStatesView,
    jobs: Seq<(Seq<char>, Seq<StepLogView>)>,
    job: Seq<char>,
    steps: Seq<StepLogView>,
    now: Timestamp,
)
    ensures
        active_jobs(states, now) == active_among(states, states.steps, now),
        active_among(states, Seq::empty(), now).len() == 0,
        worker::entry(states.completions, job) is None ==> active_among(
            states,
            jobs.push((job, steps)),
            now,
        ) == active_among(states, jobs, now).push(active_job(job, steps, now)),
        worker::entry(states.completions, job) is Some ==> active_among(
            states,
            jobs.push((job, steps)),
            now,
        ) == active_among(states, jobs, now),
{
    assert(jobs.push((job, steps)).drop_last() =~= jobs);
}

/// Running jobs are filled in exactly for a run that was begun, has not completed,
/// is being followed and of whose jobs something is known. Nothing else of what
/// is shown differs from what is stored.
pub proof fn law_running_jobs_are_filled_in(
    entry: RunEntryView,
    states: Option<JobStatesView>,
    now: Timestamp,
)
    ensures
        ({
            let run = shown(entry, states, now);
            let going = entry.info.started_at is Some && entry.info.completed_at is None
                && entry.followed && states is Some;
            &&& going ==> run.active_jobs == active_jobs(states->0, now)
            &&& !going ==> run.active_jobs == entry.info.active_jobs
            &&& run.id == entry.info.id
            &&& run.candidate == entry.info.candidate
            &&& run.status == entry.info.status
            &&& run.queued_at == entry.info.queued_at
            &&& run.started_at == entry.info.started_at
            &&& run.completed_at == entry.info.completed_at
            &&& run.merge_mode == entry.info.merge_mode
            &&& run.test_merge_output == entry.info.test_merge_output
            &&& run.output == entry.info.output
            &&& run.completed_steps == entry.info.completed_steps
            &&& run.completed_jobs == entry.info.completed_jobs
            &&& run.no_merge == entry.info.no_merge
        }),
{
}

/// A list counts back from the newest run, without a gap, as far as its limit
/// goes.
pub proof fn law_lists_count_back(runs: Seq<RunEntryView>, limit: Option<usize>, i: int)
    ensures
        limit is None || limit->0 >= runs.len() ==> listed(runs, limit).len() == runs.len(),
        limit is Some && limit->0 < runs.len() ==> listed(runs, limit).len() == limit->0,
        0 <= i < listed(runs, limit).len() ==> listed(runs, limit)[i] == runs[runs.len() - 1
            - i].info,
{
}

} // verus!
