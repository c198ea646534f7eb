//! What can be wrong with an implementation of the background API.
use vstd::prelude::*;

verus! {

/// The check that a reply did not pass.
#[derive(Clone, Copy, Debug, PartialEq, Eq, Structural)]
pub enum CheckFailure {
    /// A call failed whose reply is needed.
    CallFailed,
    /// Something is listed before anything was written.
    ListNotEmpty,
    /// The time at which a task expires is beyond the calendar.
    ExpiryOutOfRange,
    /// The task that was written is not there.
    TaskInfoMissing,
    /// The task does not read as started.
    TaskNotStarted,
    /// The task does not read as done.
    TaskNotDone,
    /// There is not exactly one task.
    NotOneTask,
    /// The one task has another id.
    WrongTaskName,
    /// The job has no status.
    JobStatusMissing,
    /// The job has no parameters.
    JobParamsMissing,
    /// The job is not in the state that was written.
    WrongJobState,
    /// The job is not of the type that was written.
    WrongJobType,
    /// The job does not run at the interval that was written.
    WrongJobInterval,
    /// The job does not have the last task that was written.
    WrongLastTask,
    /// There is not exactly one job.
    NotOneJob,
    /// The one job has another name.
    WrongJobName,
    /// The reply belongs to another request than the one that was sent.
    WrongReply,
}

/// The state to go on with, unless something is wrong.
pub open spec fn unless<R>(failure: Option<CheckFailure>, next: R) -> Result<R, CheckFailure> {
    match failure {
        Some(failure) => Err(failure),
        None => Ok(next),
    }
}

/// Goes on with `next`, unless something is wrong.
pub fn go_on<R>(failure: Option<CheckFailure>, next: R) -> (res: Result<R, CheckFailure>)
    ensures
        res == unless(failure, next),
        failure is None ==> res == Ok::<R, CheckFailure>(next),
        failure matches Some(wrong) ==> res == Err::<R, CheckFailure>(wrong),
{
    match failure {
        Some(failure) => Err(failure),
        None => Ok(next),
    }
}

impl CheckFailure {
    /// What the check says of the reply that it expects, where it says anything.
    pub open spec fn says(self) -> Option<Seq<char>> {
        match self {
            CheckFailure::TaskNotStarted => Some("first state is started"@),
            CheckFailure::TaskNotDone => Some("first state is done"@),
            CheckFailure::NotOneTask => Some("there is one task"@),
            CheckFailure::WrongTaskName => Some("task name"@),
            CheckFailure::WrongJobState => Some("first state is started"@),
            CheckFailure::WrongJobType => Some("first state is started"@),
            CheckFailure::WrongJobName => Some("expect same ident name"@),
            _ => None,
        }
    }

    /// The message of the check, where it has one.
    pub fn message(&self) -> (res: Option<&'static str>)
        ensures
            match res {
                Some(message) => self.says() == Some(message@),
                None => self.says() is None,
            },
            res is Some <==> {
                ||| self is TaskNotStarted
                ||| self is TaskNotDone
                ||| self is NotOneTask
                ||| self is WrongTaskName
                ||| self is WrongJobState
                ||| self is WrongJobType
                ||| self is WrongJobName
            },
            self is TaskNotStarted ==> res->0@ == "first state is started"@,
            self is TaskNotDone ==> res->0@ == "first state is done"@,
            self is NotOneTask ==> res->0@ == "there is one task"@,
            self is WrongTaskName ==> res->0@ == "task name"@,
            self is WrongJobState ==> res->0@ == "first state is started"@,
            self is WrongJobType ==> res->0@ == "first state is started"@,
            self is WrongJobName ==> res->0@ == "expect same ident name"@,
    {
        match self {
            CheckFailure::TaskNotStarted => Some("first state is started"),
            CheckFailure::TaskNotDone => Some("first state is done"),
            CheckFailure::NotOneTask => Some("there is one task"),
            CheckFailure::WrongTaskName => Some("task name"),
            CheckFailure::WrongJobState => Some("first state is started"),
            CheckFailure::WrongJobType => Some("first state is started"),
            CheckFailure::WrongJobName => Some("expect same ident name"),
            _ => None,
        }
    }
}

} // verus!
