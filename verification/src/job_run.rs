//! The checks of the API for background jobs: a job is created, read, given new parameters, read,
//! given a new status, read again and listed.
use crate::background::{
    fresh_job, new_background_job, text, BackgroundJobIdent, BackgroundJobInfo,
    BackgroundJobParams, BackgroundJobState, BackgroundJobStatus, BackgroundJobType, Interval,
    JobIdentModel, JobParamsModel, JobReply, JobRequest, JobRequestModel, JobStatusModel,
};
use crate::check::{go_on, unless, CheckFailure};
use crate::timestamp::Timestamp;
use vstd::prelude::*;

verus! {

/// How far the checks have come: each state waits for the reply to its `request`.
#[derive(Clone, Copy, Debug, PartialEq, Eq, Structural)]
pub enum JobRun {
    /// Nothing is written yet.
    ListNone,
    Create { create_on: Timestamp },
    GetCreated,
    UpdateParams,
    GetParams,
    UpdateStatus,
    GetStatus,
    ListJobs,
    /// All checks are passed.
    Finished,
}

/// The name of the job that the checks write.
pub open spec fn job_ident() -> JobIdentModel {
    JobIdentModel { tenant: "tenant1"@, name: "uuid1"@ }
}

/// The parameters that the checks write: to run once an hour.
pub open spec fn hourly() -> JobParamsModel {
    JobParamsModel {
        job_type: BackgroundJobType::INTERVAL,
        scheduled_job_interval: Interval { secs: 3600, nanos: 0 },
        scheduled_job_cron: Seq::empty(),
        scheduled_job_timezone: None,
    }
}

/// The status that the checks write: the last task failed.
pub open spec fn failed() -> JobStatusModel {
    JobStatusModel {
        job_state: BackgroundJobState::FAILED,
        last_task_id: Some("newid"@),
        last_task_run_at: None,
        next_task_scheduled_time: None,
    }
}

/// The request that the checks send in a state.
pub open spec fn job_request(run: JobRun) -> Option<JobRequestModel> {
    match run {
        JobRun::ListNone => Some(JobRequestModel::List { tenant: "tenant1"@ }),
        JobRun::Create { create_on } => Some(
            JobRequestModel::Create {
                if_not_exists: true,
                job_name: job_ident(),
                job_info: fresh_job(BackgroundJobState::RUNNING, create_on),
            },
        ),
        JobRun::GetCreated => Some(JobRequestModel::Get { name: job_ident() }),
        JobRun::UpdateParams => Some(
            JobRequestModel::UpdateParams { job_name: job_ident(), params: hourly() },
        ),
        JobRun::GetParams => Some(JobRequestModel::Get { name: job_ident() }),
        JobRun::UpdateStatus => Some(
            JobRequestModel::UpdateStatus { job_name: job_ident(), status: failed() },
        ),
        JobRun::GetStatus => Some(JobRequestModel::Get { name: job_ident() }),
        JobRun::ListJobs => Some(JobRequestModel::List { tenant: "tenant1"@ }),
        JobRun::Finished => None,
    }
}

/// What is wrong with the status of a job that should be in `state`.
pub open spec fn state_failure(
    info: BackgroundJobInfo,
    state: BackgroundJobState,
) -> Option<CheckFailure> {
    match info.job_status {
        Some(status) => if status.job_state == state {
            None
        } else {
            Some(CheckFailure::WrongJobState)
        },
        None => Some(CheckFailure::JobStatusMissing),
    }
}

/// What is wrong with the parameters of a job that should run at intervals.
pub open spec fn type_failure(info: BackgroundJobInfo) -> Option<CheckFailure> {
    match info.job_params {
        Some(params) => if params.job_type == BackgroundJobType::INTERVAL {
            None
        } else {
            Some(CheckFailure::WrongJobType)
        },
        None => Some(CheckFailure::JobParamsMissing),
    }
}

/// What is wrong with a job that was given its parameters.
pub open spec fn params_failure(info: BackgroundJobInfo) -> Option<CheckFailure> {
    if type_failure(info) is Some {
        type_failure(info)
    } else if info.job_params->0.scheduled_job_interval != hourly().scheduled_job_interval {
        Some(CheckFailure::WrongJobInterval)
    } else {
        None
    }
}

/// What is wrong with a job that was given its status.
pub open spec fn status_failure(info: BackgroundJobInfo) -> Option<CheckFailure> {
    if state_failure(info, BackgroundJobState::FAILED) is Some {
        state_failure(info, BackgroundJobState::FAILED)
    } else if text(info.job_status->0.last_task_id) != failed().last_task_id {
        Some(CheckFailure::WrongLastTask)
    } else {
        None
    }
}

/// What is wrong with a list that should hold the one job, with its parameters and status.
pub open spec fn entries_failure(entries: Seq<(u64, String, BackgroundJobInfo)>) -> Option<
    CheckFailure,
> {
    if entries.len() != 1 {
        Some(CheckFailure::NotOneJob)
    } else if entries[0].1@ != job_ident().name {
        Some(CheckFailure::WrongJobName)
    } else if state_failure(entries[0].2, BackgroundJobState::FAILED) is Some {
        state_failure(entries[0].2, BackgroundJobState::FAILED)
    } else {
        type_failure(entries[0].2)
    }
}

/// What the checks make of `reply`, where the clock reads `now` when the job is created. How a
/// write was answered is not looked at.
pub open spec fn job_next(run: JobRun, reply: JobReply, now: Timestamp) -> Result<
    JobRun,
    CheckFailure,
> {
    match run {
        JobRun::ListNone => match reply {
            JobReply::List(Ok(entries)) => if entries@.len() == 0 {
                Ok(JobRun::Create { create_on: now })
            } else {
                Err(CheckFailure::ListNotEmpty)
            },
            JobReply::List(Err(_)) => Err(CheckFailure::CallFailed),
            _ => Err(CheckFailure::WrongReply),
        },
        JobRun::Create { .. } => if reply is Create {
            Ok(JobRun::GetCreated)
        } else {
            Err(CheckFailure::WrongReply)
        },
        JobRun::GetCreated => match reply {
            JobReply::Get(Ok(info)) => unless(
                state_failure(info, BackgroundJobState::RUNNING),
                JobRun::UpdateParams,
            ),
            JobReply::Get(Err(_)) => Err(CheckFailure::CallFailed),
            _ => Err(CheckFailure::WrongReply),
        },
        JobRun::UpdateParams => if reply is UpdateParams {
            Ok(JobRun::GetParams)
        } else {
            Err(CheckFailure::WrongReply)
        },
        JobRun::GetParams => match reply {
            JobReply::Get(Ok(info)) => unless(params_failure(info), JobRun::UpdateStatus),
            JobReply::Get(Err(_)) => Err(CheckFailure::CallFailed),
            _ => Err(CheckFailure::WrongReply),
        },
        JobRun::UpdateStatus => if reply is UpdateStatus {
            Ok(JobRun::GetStatus)
        } else {
            Err(CheckFailure::WrongReply)
        },
        JobRun::GetStatus => match reply {
            JobReply::Get(Ok(info)) => unless(status_failure(info), JobRun::ListJobs),
            JobReply::Get(Err(_)) => Err(CheckFailure::CallFailed),
            _ => Err(CheckFailure::WrongReply),
        },
        JobRun::ListJobs => match reply {
            JobReply::List(Ok(entries)) => unless(entries_failure(entries@), JobRun::Finished),
            JobReply::List(Err(_)) => Err(CheckFailure::CallFailed),
            _ => Err(CheckFailure::WrongReply),
        },
        JobRun::Finished => Err(CheckFailure::WrongReply),
    }
}

/// The name of the job that the checks write.
fn new_job_ident() -> (res: BackgroundJobIdent)
    ensures
        res@ == job_ident(),
{
    BackgroundJobIdent { tenant: "tenant1".to_string(), name: "uuid1".to_string() }
}

/// Checks the status of a job that should be in `state`.
fn check_state(info: &BackgroundJobInfo, state: BackgroundJobState) -> (res: Option<CheckFailure>)
    ensures
        res == state_failure(*info, state),
{
    match &info.job_status {
        Some(status) => {
            if status.job_state == state {
                None
            } else {
                Some(CheckFailure::WrongJobState)
            }
        },
        None => Some(CheckFailure::JobStatusMissing),
    }
}

/// Checks the parameters of a job that should run at intervals.
fn check_type(info: &BackgroundJobInfo) -> (res: Option<CheckFailure>)
    ensures
        res == type_failure(*info),
{
    match &info.job_params {
        Some(params) => {
            if params.job_type == BackgroundJobType::INTERVAL {
                None
            } else {
                Some(CheckFailure::WrongJobType)
            }
        },
        None => Some(CheckFailure::JobParamsMissing),
    }
}

/// Checks a job that was given its parameters.
fn check_params(info: &BackgroundJobInfo) -> (res: Option<CheckFailure>)
    ensures
        res == params_failure(*info),
{
    match check_type(info) {
        Some(failure) => Some(failure),
        None => match &info.job_params {
            Some(params) => {
                if params.scheduled_job_interval != (Interval { secs: 3600, nanos: 0 }) {
                    Some(CheckFailure::WrongJobInterval)
                } else {
                    None
                }
            },
            None => Some(CheckFailure::JobParamsMissing),
        },
    }
}

/// Checks a job that was given its status.
fn check_status(info: &BackgroundJobInfo) -> (res: Option<CheckFailure>)
    ensures
        res == status_failure(*info),
{
    match check_state(info, BackgroundJobState::FAILED) {
        Some(failure) => Some(failure),
        None => match &info.job_status {
            Some(status) => match &status.last_task_id {
                Some(id) => {
                    if *id == "newid".to_string() {
                        None
                    } else {
                        Some(CheckFailure::WrongLastTask)
                    }
                },
                None => Some(CheckFailure::WrongLastTask),
            },
            None => Some(CheckFailure::JobStatusMissing),
        },
    }
}

/// Checks a list that should hold the one job, with its parameters and status.
fn check_entries(entries: &Vec<(u64, String, BackgroundJobInfo)>) -> (res: Option<CheckFailure>)
    ensures
        res == entries_failure(entries@),
{
    if entries.len() != 1 {
        return Some(CheckFailure::NotOneJob);
    }
    if entries[0].1 != "uuid1".to_string() {
        return Some(CheckFailure::WrongJobName);
    }
    match check_state(&entries[0].2, BackgroundJobState::FAILED) {
        Some(failure) => Some(failure),
        None => check_type(&entries[0].2),
    }
}

impl JobRun {
    /// The request to send next, or `None` when all checks are passed.
    pub fn request(&self) -> (res: Option<JobRequest>)
        ensures
            match res {
                Some(request) => job_request(*self) == Some(request@),
                None => job_request(*self) is None,
            },
            match *self {
                JobRun::ListNone | JobRun::ListJobs => {
                    &&& res matches Some(JobRequest::List { tenant })
                    &&& tenant@ == "tenant1"@
                },
                JobRun::Create { create_on } => {
                    &&& res matches Some(JobRequest::Create { if_not_exists, job_name, job_info })
                    &&& if_not_exists
                    &&& job_name.tenant@ == "tenant1"@
                    &&& job_name.name@ == "uuid1"@
                    &&& job_info.created_at == create_on
                    &&& job_info.job_status matches Some(status)
                    &&& status.job_state == BackgroundJobState::RUNNING
                },
                JobRun::GetCreated | JobRun::GetParams | JobRun::GetStatus => {
                    &&& res matches Some(JobRequest::Get { name })
                    &&& name.tenant@ == "tenant1"@
                    &&& name.name@ == "uuid1"@
                },
                JobRun::UpdateParams => {
                    &&& res matches Some(JobRequest::UpdateParams { job_name, params })
                    &&& job_name.tenant@ == "tenant1"@
                    &&& job_name.name@ == "uuid1"@
                    &&& params.job_type == BackgroundJobType::INTERVAL
                    &&& params.scheduled_job_interval.secs == 3600
                    &&& params.scheduled_job_interval.nanos == 0
                    &&& params.scheduled_job_cron@.len() == 0
                    &&& params.scheduled_job_timezone is None
                },
                JobRun::UpdateStatus => {
                    &&& res matches Some(JobRequest::UpdateStatus { job_name, status })
                    &&& job_name.tenant@ == "tenant1"@
                    &&& job_name.name@ == "uuid1"@
                    &&& status.job_state == BackgroundJobState::FAILED
                    &&& status.last_task_run_at is None
                    &&& status.next_task_scheduled_time is None
                    &&& status.last_task_id matches Some(id)
                    &&& id@ == "newid"@
                },
                JobRun::Finished => res is None,
            },
    {
        match *self {
            JobRun::ListNone => Some(JobRequest::List { tenant: "tenant1".to_string() }),
            JobRun::Create { create_on } => Some(
                JobRequest::Create {
                    if_not_exists: true,
                    job_name: new_job_ident(),
                    job_info: new_background_job(BackgroundJobState::RUNNING, create_on),
                },
            ),
            JobRun::GetCreated => Some(JobRequest::Get { name: new_job_ident() }),
            JobRun::UpdateParams => Some(
                JobRequest::UpdateParams {
                    job_name: new_job_ident(),
                    params: BackgroundJobParams {
                        job_type: BackgroundJobType::INTERVAL,
                        scheduled_job_interval: Interval { secs: 3600, nanos: 0 },
                        scheduled_job_cron: String::new(),
                        scheduled_job_timezone: None,
                    },
                },
            ),
            JobRun::GetParams => Some(JobRequest::Get { name: new_job_ident() }),
            JobRun::UpdateStatus => Some(
                JobRequest::UpdateStatus {
                    job_name: new_job_ident(),
                    status: BackgroundJobStatus {
                        job_state: BackgroundJobState::FAILED,
                        last_task_id: Some("newid".to_string()),
                        last_task_run_at: None,
                        next_task_scheduled_time: None,
                    },
                },
            ),
            JobRun::GetStatus => Some(JobRequest::Get { name: new_job_ident() }),
            JobRun::ListJobs => Some(JobRequest::List { tenant: "tenant1".to_string() }),
            JobRun::Finished => None,
        }
    }

    /// Checks the reply to the request of this state, where the clock reads `now` when the job is
    /// created.
    pub fn advance_at(self, reply: &JobReply, now: Timestamp) -> (res: Result<JobRun, CheckFailure>)
        ensures
            res == job_next(self, *reply, now),
    {
        match self {
            JobRun::ListNone => match reply {
                JobReply::List(Ok(entries)) => {
                    if entries.len() == 0 {
                        Ok(JobRun::Create { create_on: now })
                    } else {
                        Err(CheckFailure::ListNotEmpty)
                    }
                },
                JobReply::List(Err(_)) => Err(CheckFailure::CallFailed),
                _ => Err(CheckFailure::WrongReply),
            },
            JobRun::Create { .. } => match reply {
                JobReply::Create(_) => Ok(JobRun::GetCreated),
                _ => Err(CheckFailure::WrongReply),
            },
            JobRun::GetCreated => match reply {
                JobReply::Get(Ok(info)) => go_on(
                    check_state(info, BackgroundJobState::RUNNING),
                    JobRun::UpdateParams,
                ),
                JobReply::Get(Err(_)) => Err(CheckFailure::CallFailed),
                _ => Err(CheckFailure::WrongReply),
            },
            JobRun::UpdateParams => match reply {
                JobReply::UpdateParams(_) => Ok(JobRun::GetParams),
                _ => Err(CheckFailure::WrongReply),
            },
            JobRun::GetParams => match reply {
                JobReply::Get(Ok(info)) => go_on(check_params(info), JobRun::UpdateStatus),
                JobReply::Get(Err(_)) => Err(CheckFailure::CallFailed),
                _ => Err(CheckFailure::WrongReply),
            },
            JobRun::UpdateStatus => match reply {
                JobReply::UpdateStatus(_) => Ok(JobRun::GetStatus),
                _ => Err(CheckFailure::WrongReply),
            },
            JobRun::GetStatus => match reply {
                JobReply::Get(Ok(info)) => go_on(check_status(info), JobRun::ListJobs),
                JobReply::Get(Err(_)) => Err(CheckFailure::CallFailed),
                _ => Err(CheckFailure::WrongReply),
            },
            JobRun::ListJobs => match reply {
                JobReply::List(Ok(entries)) => go_on(check_entries(entries), JobRun::Finished),
                JobReply::List(Err(_)) => Err(CheckFailure::CallFailed),
                _ => Err(CheckFailure::WrongReply),
            },
            JobRun::Finished => Err(CheckFailure::WrongReply),
        }
    }

    /// Checks the reply to the request of this state. A job is created at the present time.
    pub fn advance(self, reply: &JobReply) -> (res: Result<JobRun, CheckFailure>)
        ensures
            exists|now: Timestamp|
                #![trigger job_next(self, *reply, now)]
                {
                    &&& now.valid()
                    &&& now.secs >= 0
                    &&& self is ListNone ==> now.read_from_clock()
                    &&& res == job_next(self, *reply, now)
                },
            self is ListNone && res is Ok ==> {
                &&& res matches Ok(JobRun::Create { create_on })
                &&& create_on.read_from_clock()
            },
    {
        let now = match self {
            JobRun::ListNone => Timestamp::now(),
            _ => Timestamp { secs: 0, nanos: 0 },
        };
        self.advance_at(reply, now)
    }
}

} // verus!
