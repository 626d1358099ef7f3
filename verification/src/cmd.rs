use vstd::prelude::*;
use crate::taskstate::{Check, Checkable, Location, NewTask, TaskState, TaskView, new_task_spec};

verus! {

/// A parameter added to a running task.
pub enum Value {
    Location(Location),
    Industry(String),
}

/// A command sent to the worker.
pub enum Cmd {
    /// Start a task, replacing any running one.
    START(NewTask),
    /// Remove a parameter (not supported).
    REMOVE(Value),
    /// Queue one more parameter on the running task.
    ADD(Value),
    /// Drop the running task.
    STOP,
    /// Pause the running task (not supported).
    PAUSE,
    /// Report on the running task.
    CHECK,
}

/// What the worker answers a command with.
pub enum CmdReply {
    /// Nothing to send back.
    Nothing,
    /// The report on the running task (`None`: no task runs).
    Check(Option<Check>),
}

/// The abstract state of the worker's slot for a task.
pub open spec fn slot_view(s: Option<TaskState>) -> Option<TaskView> {
    match s {
        Some(t) => Some(t@),
        None => None,
    }
}

/// Whether the worker accepts the command.
pub open spec fn supported(cmd: Cmd) -> bool {
    !(cmd is REMOVE || cmd is PAUSE)
}

/// Whether the worker accepts the command: all but `REMOVE` and `PAUSE`.
pub fn supported_cmd(cmd: &Cmd) -> (r: bool)
    ensures
        r == supported(*cmd),
{
    match cmd {
        Cmd::REMOVE(_) => false,
        Cmd::PAUSE => false,
        _ => true,
    }
}

/// The task after the command `cmd`: a started task replaces the running
/// one, a stopped task is dropped, a parameter is queued on a running task
/// and is ignored when none runs.
pub open spec fn apply_spec(task: Option<TaskView>, cmd: Cmd) -> Option<TaskView> {
    match cmd {
        Cmd::START(nt) => Some(new_task_spec(nt)),
        Cmd::STOP => None,
        Cmd::ADD(Value::Location(l)) => match task {
            Some(t) => Some(TaskView { q_locations: t.q_locations.push(l), ..t }),
            None => None,
        },
        Cmd::ADD(Value::Industry(i)) => match task {
            Some(t) => Some(TaskView { q_industries: t.q_industries.push(i), ..t }),
            None => None,
        },
        _ => task,
    }
}

/// The content of a progress report.
pub struct ReportView {
    pub current_industry: Option<String>,
    pub todo_industries: Seq<String>,
    pub finished_industries: Seq<String>,
    pub todo_locations: Seq<Location>,
    pub finished_locations: Seq<Location>,
}

/// The progress report on a task slot: none without a task; otherwise the
/// current industry, the queued industries, the finished industries, and
/// the locations taken so far (as both location lists).
pub open spec fn report_spec(task: Option<TaskView>) -> Option<ReportView> {
    match task {
        None => None,
        Some(t) => Some(ReportView {
            current_industry: t.current_industry,
            todo_industries: t.q_industries,
            finished_industries: t.finished_industries,
            todo_locations: t.locations,
            finished_locations: t.locations,
        }),
    }
}

/// The content of a report.
pub open spec fn check_view(c: Option<Check>) -> Option<ReportView> {
    match c {
        None => None,
        Some(c) => Some(ReportView {
            current_industry: c.current_industry,
            todo_industries: c.todo_industries@,
            finished_industries: c.finished_industries@,
            todo_locations: c.todo_locations@,
            finished_locations: c.finised_locations@,
        }),
    }
}

/// Carries out a command on the worker's task slot. Every command but
/// `CHECK` is answered with nothing; `CHECK` with the report on the slot.
pub fn apply_cmd(task: &mut Option<TaskState>, cmd: Cmd) -> (reply: CmdReply)
    requires
        supported(cmd),
    ensures
        slot_view(*final(task)) == apply_spec(slot_view(*old(task)), cmd),
        match reply {
            CmdReply::Nothing => !(cmd is CHECK),
            CmdReply::Check(c) => cmd is CHECK && check_view(c) == report_spec(slot_view(*old(task))),
        },
        cmd is CHECK ==> *final(task) == *old(task),
        cmd is CHECK ==> (reply matches CmdReply::Check(c) && match (*old(task), c) {
            (None, None) => true,
            (Some(t), Some(c)) => {
                &&& c.current_industry == t@.current_industry
                &&& c.todo_industries@ == t@.q_industries
                &&& c.finished_industries@ == t@.finished_industries
                &&& c.todo_locations@ == t@.locations
                &&& c.finised_locations@ == t@.locations
            },
            _ => false,
        }),
{
    match cmd {
        Cmd::START(nt) => {
            *task = Some(TaskState::new(nt));
            CmdReply::Nothing
        },
        Cmd::STOP => {
            *task = None;
            CmdReply::Nothing
        },
        Cmd::CHECK => {
            let c = task.check();
            CmdReply::Check(c)
        },
        Cmd::ADD(v) => {
            match v {
                Value::Location(l) => {
                    if let Some(ts) = task {
                        ts.add_location(l);
                    }
                },
                Value::Industry(s) => {
                    if let Some(ts) = task {
                        ts.add_industry(s);
                    }
                },
            }
            CmdReply::Nothing
        },
        Cmd::REMOVE(_) => CmdReply::Nothing,
        Cmd::PAUSE => CmdReply::Nothing,
    }
}

/// A task just started reports no current industry, all its industries to
/// do in the order given, and no finished industry and no location taken,
/// whatever ran before.
pub proof fn lemma_start_then_check(task: Option<TaskView>, nt: NewTask)
    ensures
        report_spec(apply_spec(task, Cmd::START(nt))) == Some(ReportView {
            current_industry: None,
            todo_industries: nt.industries@,
            finished_industries: Seq::empty(),
            todo_locations: Seq::empty(),
            finished_locations: Seq::empty(),
        }),
{
}

/// After a stop, no task runs and the report is empty.
pub proof fn lemma_stop_then_check(task: Option<TaskView>)
    ensures
        apply_spec(task, Cmd::STOP) is None,
        report_spec(apply_spec(task, Cmd::STOP)) is None,
{
}

/// A report changes nothing.
pub proof fn lemma_check_is_read_only(task: Option<TaskView>)
    ensures
        apply_spec(task, Cmd::CHECK) == task,
{
}

/// An industry added to a running task is reported last among the
/// industries to do, after those that were queued; with no task running the
/// command has no effect.
pub proof fn lemma_add_industry_then_check(task: Option<TaskView>, i: String)
    ensures
        match task {
            Some(t) => report_spec(apply_spec(task, Cmd::ADD(Value::Industry(i)))) matches Some(r)
                && r.todo_industries == t.q_industries.push(i)
                && r.todo_locations == t.locations,
            None => apply_spec(task, Cmd::ADD(Value::Industry(i))) is None,
        },
{
}

/// A location added to a running task is queued last among the locations of
/// the current round and does not show among the locations taken until a
/// search takes it; with no task running the command has no effect.
pub proof fn lemma_add_location_then_check(task: Option<TaskView>, l: Location)
    ensures
        match task {
            Some(t) => apply_spec(task, Cmd::ADD(Value::Location(l))) matches Some(t2)
                && t2.q_locations == t.q_locations.push(l)
                && report_spec(Some(t2)) == report_spec(task),
            None => apply_spec(task, Cmd::ADD(Value::Location(l))) is None,
        },
{
}

/// A report on a running task shows its current industry, its queued
/// industries, its finished industries, and its taken locations (in both
/// location lists); with no task there is no report.
pub proof fn lemma_report_contents(task: Option<TaskView>)
    ensures
        task is None ==> report_spec(task) is None,
        (task matches Some(t) ==> report_spec(task) matches Some(r) && {
            &&& r.current_industry == t.current_industry
            &&& r.todo_industries == t.q_industries
            &&& r.finished_industries == t.finished_industries
            &&& r.todo_locations == t.locations
            &&& r.finished_locations == t.locations
        }),
{
}

/// A started task replaces whatever ran, with everything given queued; a
/// location or industry added to a running task is queued last and leaves
/// the rest of the task alone.
pub proof fn lemma_apply_effects(task: Option<TaskView>, nt: NewTask, l: Location, i: String)
    ensures
        apply_spec(task, Cmd::START(nt)) == Some(new_task_spec(nt)),
        (task matches Some(t) ==> apply_spec(task, Cmd::ADD(Value::Location(l))) == Some(TaskView { q_locations: t.q_locations.push(l), ..t })),
        (task matches Some(t) ==> apply_spec(task, Cmd::ADD(Value::Industry(i))) == Some(TaskView { q_industries: t.q_industries.push(i), ..t })),
        task is None ==> apply_spec(task, Cmd::ADD(Value::Location(l))) is None,
        task is None ==> apply_spec(task, Cmd::ADD(Value::Industry(i))) is None,
{
}

/// Every command is accepted but `REMOVE` and `PAUSE`.
pub proof fn lemma_supported_commands(cmd: Cmd)
    ensures
        supported(cmd) <==> (cmd is START || cmd is ADD || cmd is STOP || cmd is CHECK),
{
}

} // verus!
