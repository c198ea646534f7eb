//! The suite of checks that an implementation of the background API has to pass.
use crate::background::{JobReply, JobRequest, TaskReply, TaskRequest};
use crate::check::CheckFailure;
use crate::job_run::{job_next, job_request, JobRun};
use crate::task_run::{task_next, task_request, TaskRun};
use crate::timestamp::Timestamp;
use vstd::prelude::*;

verus! {

/// The suite of checks of the background API. It is meant for those who implement the API: it
/// makes sure that an implementation works as expected.
#[derive(Copy, Clone)]
pub struct BackgroundApiTestSuite {}

/// How far the suite has come on a single node: the task checks on one fresh instance of the API,
/// then the job checks on another.
#[derive(Clone, Copy, Debug, PartialEq, Eq, Structural)]
pub enum SuiteRun {
    BuildForTasks,
    Tasks(TaskRun),
    BuildForJobs,
    Jobs(JobRun),
    /// All checks are passed.
    Finished,
}

/// What the suite waits for.
#[derive(Debug)]
pub enum SuiteAction {
    /// Build a fresh instance of the API.
    Build,
    /// Send a request for tasks to the instance.
    Task(TaskRequest),
    /// Send a request for jobs to the instance.
    Job(JobRequest),
    /// Nothing is left to do.
    Finish,
}

/// What came of a `SuiteAction`.
#[derive(Debug)]
pub enum SuiteEvent {
    Built,
    Task(TaskReply),
    Job(JobReply),
}

/// The state of the suite when the task checks have come to `run`.
pub open spec fn after_tasks(run: TaskRun) -> SuiteRun {
    if run is Finished {
        SuiteRun::BuildForJobs
    } else {
        SuiteRun::Tasks(run)
    }
}

/// The state of the suite when the job checks have come to `run`.
pub open spec fn after_jobs(run: JobRun) -> SuiteRun {
    if run is Finished {
        SuiteRun::Finished
    } else {
        SuiteRun::Jobs(run)
    }
}

/// What the suite makes of `event`, where the clock reads `now`.
pub open spec fn suite_next(run: SuiteRun, event: SuiteEvent, now: Timestamp) -> Result<
    SuiteRun,
    CheckFailure,
> {
    match (run, event) {
        (SuiteRun::BuildForTasks, SuiteEvent::Built) => Ok(SuiteRun::Tasks(TaskRun::ListNone)),
        (SuiteRun::Tasks(tasks), SuiteEvent::Task(reply)) => match task_next(tasks, reply, now) {
            Ok(after) => Ok(after_tasks(after)),
            Err(failure) => Err(failure),
        },
        (SuiteRun::BuildForJobs, SuiteEvent::Built) => Ok(SuiteRun::Jobs(JobRun::ListNone)),
        (SuiteRun::Jobs(jobs), SuiteEvent::Job(reply)) => match job_next(jobs, reply, now) {
            Ok(after) => Ok(after_jobs(after)),
            Err(failure) => Err(failure),
        },
        _ => Err(CheckFailure::WrongReply),
    }
}

/// The suite waits for `action` in the state `run`.
pub open spec fn suite_waits_for(run: SuiteRun, action: SuiteAction) -> bool {
    match run {
        SuiteRun::BuildForTasks => action is Build,
        SuiteRun::Tasks(tasks) => match task_request(tasks) {
            Some(request) => action matches SuiteAction::Task(sent) && sent@ == request,
            None => action is Finish,
        },
        SuiteRun::BuildForJobs => action is Build,
        SuiteRun::Jobs(jobs) => match job_request(jobs) {
            Some(request) => action matches SuiteAction::Job(sent) && sent@ == request,
            None => action is Finish,
        },
        SuiteRun::Finished => action is Finish,
    }
}

impl BackgroundApiTestSuite {
    /// Opens the checks on a single node.
    pub fn test_single_node() -> (res: SuiteRun)
        ensures
            res == SuiteRun::BuildForTasks,
    {
        SuiteRun::BuildForTasks
    }

    /// Opens the checks of the API for tasks.
    pub fn update_background_tasks(&self) -> (res: TaskRun)
        ensures
            res == TaskRun::ListNone,
    {
        TaskRun::ListNone
    }

    /// Opens the checks of the API for jobs.
    pub fn update_background_jobs(&self) -> (res: JobRun)
        ensures
            res == JobRun::ListNone,
    {
        JobRun::ListNone
    }
}

impl SuiteRun {
    /// What the suite waits for.
    pub fn action(&self) -> (res: SuiteAction)
        ensures
            suite_waits_for(*self, res),
            match *self {
                SuiteRun::BuildForTasks | SuiteRun::BuildForJobs => res is Build,
                SuiteRun::Tasks(tasks) => match task_request(tasks) {
                    Some(request) => res matches SuiteAction::Task(sent) && sent@ == request,
                    None => res is Finish,
                },
                SuiteRun::Jobs(jobs) => match job_request(jobs) {
                    Some(request) => res matches SuiteAction::Job(sent) && sent@ == request,
                    None => res is Finish,
                },
                SuiteRun::Finished => res is Finish,
            },
    {
        match self {
            SuiteRun::BuildForTasks => SuiteAction::Build,
            SuiteRun::Tasks(tasks) => match tasks.request() {
                Some(request) => SuiteAction::Task(request),
                None => SuiteAction::Finish,
            },
            SuiteRun::BuildForJobs => SuiteAction::Build,
            SuiteRun::Jobs(jobs) => match jobs.request() {
                Some(request) => SuiteAction::Job(request),
                None => SuiteAction::Finish,
            },
            SuiteRun::Finished => SuiteAction::Finish,
        }
    }

    /// Takes what came of the action of this state and moves on, where the clock reads `now` when a
    /// task or a job is created.
    pub fn advance_at(self, event: &SuiteEvent, now: Timestamp) -> (res: Result<
        SuiteRun,
        CheckFailure,
    >)
        requires
            now.valid(),
        ensures
            res == suite_next(self, *event, now),
    {
        let suite = BackgroundApiTestSuite {  };
        match (self, event) {
            (SuiteRun::BuildForTasks, SuiteEvent::Built) => Ok(
                SuiteRun::Tasks(suite.update_background_tasks()),
            ),
            (SuiteRun::Tasks(tasks), SuiteEvent::Task(reply)) => match tasks.advance_at(
                reply,
                now,
            ) {
                Ok(TaskRun::Finished) => Ok(SuiteRun::BuildForJobs),
                Ok(after) => Ok(SuiteRun::Tasks(after)),
                Err(failure) => Err(failure),
            },
            (SuiteRun::BuildForJobs, SuiteEvent::Built) => Ok(
                SuiteRun::Jobs(suite.update_background_jobs()),
            ),
            (SuiteRun::Jobs(jobs), SuiteEvent::Job(reply)) => match jobs.advance_at(reply, now) {
                Ok(JobRun::Finished) => Ok(SuiteRun::Finished),
                Ok(after) => Ok(SuiteRun::Jobs(after)),
                Err(failure) => Err(failure),
            },
            _ => Err(CheckFailure::WrongReply),
        }
    }

    /// Takes what came of the action of this state and moves on. A task or a job is created at the
    /// present time.
    pub fn advance(self, event: &SuiteEvent) -> (res: Result<SuiteRun, CheckFailure>)
        ensures
            exists|now: Timestamp|
                #![trigger suite_next(self, *event, now)]
                {
                    &&& now.valid()
                    &&& now.secs >= 0
                    &&& self matches SuiteRun::Tasks(TaskRun::ListNone) ==> now.read_from_clock()
                    &&& self matches SuiteRun::Jobs(JobRun::ListNone) ==> now.read_from_clock()
                    &&& res == suite_next(self, *event, now)
                },
            self matches SuiteRun::Tasks(TaskRun::ListNone) && res is Ok ==> {
                &&& res matches Ok(SuiteRun::Tasks(TaskRun::UpdateStarted { create_on, expire_at }))
                &&& create_on.read_from_clock()
                &&& expire_at == create_on.secs + 5
            },
            self matches SuiteRun::Jobs(JobRun::ListNone) && res is Ok ==> {
                &&& res matches Ok(SuiteRun::Jobs(JobRun::Create { create_on }))
                &&& create_on.read_from_clock()
            },
    {
        let now = match self {
            SuiteRun::Tasks(TaskRun::ListNone) => Timestamp::now(),
            SuiteRun::Jobs(JobRun::ListNone) => Timestamp::now(),
            _ => Timestamp { secs: 0, nanos: 0 },
        };
        self.advance_at(event, now)
    }
}

} // verus!
