//! The log of steps that is kept in a file.

use vstd::prelude::*;

verus! {

/// One step of the log.
#[derive(Debug)]
pub struct StepLogEntry {
    /// When it started, in seconds since the Unix epoch.
    pub ts: u64,
    pub name: String,
}

impl Clone for StepLogEntry {
    fn clone(&self) -> (res: Self)
        ensures
            res == *self,
    {
        StepLogEntry { ts: self.ts, name: self.name.clone() }
    }
}

impl StepLogEntry {
    /// A step that starts now.
    pub fn new(name: String, now: u64) -> (res: Self)
        ensures
            res.name@ == name@,
            res.ts == now,
    {
        StepLogEntry { ts: now, name }
    }
}

/// What was found where the log is kept.
#[derive(Debug)]
pub enum StepLog {
    Missing,
    Unreadable(String),
    Unparsable(String),
    Parsed(Vec<StepLogEntry>),
}

/// The times and names of steps.
pub open spec fn entries(steps: Seq<StepLogEntry>) -> Seq<(u64, Seq<char>)> {
    steps.map_values(|s: StepLogEntry| (s.ts, s.name@))
}

/// What reading a log comes to: no steps where there is no log.
pub open spec fn log_read(log: StepLog) -> Result<Seq<(u64, Seq<char>)>, Seq<char>> {
    match log {
        StepLog::Missing => Ok(seq![]),
        StepLog::Unreadable(e) => Err("Failed to read step log: "@ + e@),
        StepLog::Unparsable(e) => Err("Failed to parse step log: "@ + e@),
        StepLog::Parsed(steps) => Ok(entries(steps@)),
    }
}

/// The steps of a log, given what was found where it is kept.
pub fn read_step_log(log: StepLog) -> (res: Result<Vec<StepLogEntry>, String>)
    ensures
        match (res, log_read(log)) {
            (Ok(steps), Ok(views)) => entries(steps@) == views,
            (Err(e), Err(text)) => e@ == text,
            _ => false,
        },
{
    match log {
        StepLog::Missing => {
            let steps: Vec<StepLogEntry> = Vec::new();
            assert(entries(steps@) =~= seq![]);
            Ok(steps)
        },
        StepLog::Unreadable(e) => Err(
            String::from_str("Failed to read step log: ").concat(e.as_str()),
        ),
        StepLog::Unparsable(e) => Err(
            String::from_str("Failed to parse step log: ").concat(e.as_str()),
        ),
        StepLog::Parsed(steps) => Ok(steps),
    }
}

/// The steps that the log holds once a step was added at its end. `path` is
/// where the log is kept, where that is known.
pub fn log_step(path: Option<&str>, log: StepLog, name: String, now: u64) -> (res: Result<
    Vec<StepLogEntry>,
    String,
>)
    ensures
        match (path, log_read(log)) {
            (None, _) => res matches Err(e) && e@
                == "SELFCI_STEP_LOG_PATH environment variable not set"@,
            (Some(_), Ok(views)) => res matches Ok(steps) && entries(steps@) == views.push(
                (now, name@),
            ),
            (Some(_), Err(text)) => res matches Err(e) && e@ == text,
        },
{
    match path {
        None => return Err("SELFCI_STEP_LOG_PATH environment variable not set".to_owned()),
        Some(_) => {},
    }
    let mut steps = match read_step_log(log) {
        Ok(steps) => steps,
        Err(e) => return Err(e),
    };
    let ghost before = steps@;
    steps.push(StepLogEntry::new(name, now));
    assert(entries(steps@) =~= entries(before).push((now, name@)));
    Ok(steps)
}

/// What a log that was found holds is what it says, in order. There is nothing in
/// one that is missing, and one that cannot be read or understood says why.
pub proof fn law_logs_hold_their_steps(steps: Vec<StepLogEntry>, e: String, i: int)
    ensures
        log_read(StepLog::Missing) matches Ok(read) && read.len() == 0,
        log_read(StepLog::Unreadable(e)) == Err::<Seq<(u64, Seq<char>)>, Seq<char>>(
            "Failed to read step log: "@ + e@,
        ),
        log_read(StepLog::Unparsable(e)) == Err::<Seq<(u64, Seq<char>)>, Seq<char>>(
            "Failed to parse step log: "@ + e@,
        ),
        log_read(StepLog::Parsed(steps)) matches Ok(read) && read.len() == steps@.len() && (0 <= i
            < steps@.len() ==> read[i] == (steps@[i].ts, steps@[i].name@)),
{
}

/// A step goes to the end of its log, with its name and the time, and the steps
/// before it stay. Without a place for the log, or with a log that cannot be
/// read, nothing is written.
pub proof fn law_steps_are_logged_last(
    path: Option<&str>,
    log: StepLog,
    name: String,
    now: u64,
    res: Result<Vec<StepLogEntry>, String>,
    i: int,
)
    requires
        call_ensures(log_step, (path, log, name, now), res),
    ensures
        res is Ok <==> path is Some && (log is Missing || log is Parsed),
        path is None ==> res->Err_0@ == "SELFCI_STEP_LOG_PATH environment variable not set"@,
        path is Some ==> (log matches StepLog::Unreadable(e) ==> res->Err_0@
            == "Failed to read step log: "@ + e@),
        path is Some ==> (log matches StepLog::Unparsable(e) ==> res->Err_0@
            == "Failed to parse step log: "@ + e@),
        res matches Ok(steps) ==> {
            &&& steps@.len() > 0
            &&& steps@.last().name@ == name@
            &&& steps@.last().ts == now
            &&& log is Missing ==> steps@.len() == 1
            &&& (log matches StepLog::Parsed(before) ==> {
                &&& steps@.len() == before@.len() + 1
                &&& 0 <= i < before@.len() ==> steps@[i].name@ == before@[i].name@ && steps@[i].ts
                    == before@[i].ts
            })
        },
{
    if res is Ok {
        let steps = res->Ok_0@;
        let views = entries(steps);
        assert(views.len() == steps.len());
        assert(views.last() == (now, name@));
        match log {
            StepLog::Parsed(before) => {
                assert(views == entries(before@).push((now, name@)));
                if 0 <= i < before@.len() {
                    assert(views[i] == entries(before@)[i]);
                }
            },
            _ => {},
        }
    }
}

} // verus!
