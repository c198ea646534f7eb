//! Background tasks and jobs, and the requests and replies of the API that keeps them.
use crate::timestamp::Timestamp;
use vstd::prelude::*;

verus! {

/// How far a background task is.
#[derive(Clone, Copy, Debug, PartialEq, Eq, Structural)]
pub enum BackgroundTaskState {
    STARTED,
    DONE,
    FAILED,
}

/// What a background task does.
#[derive(Clone, Copy, Debug, PartialEq, Eq, Structural)]
pub enum BackgroundTaskType {
    COMPACTION,
    VACUUM,
}

impl Default for BackgroundTaskType {
    fn default() -> (res: Self)
        ensures
            res == BackgroundTaskType::COMPACTION,
    {
        BackgroundTaskType::COMPACTION
    }
}

/// How a background job fares.
#[derive(Clone, Copy, Debug, PartialEq, Eq, Structural)]
pub enum BackgroundJobState {
    RUNNING,
    FAILED,
    SUSPENDED,
}

/// When a background job runs.
#[derive(Clone, Copy, Debug, PartialEq, Eq, Structural)]
pub enum BackgroundJobType {
    ONESHOT,
    INTERVAL,
    CRON,
}

/// A span of time: whole seconds, and nanoseconds below one second.
#[derive(Clone, Copy, Debug, PartialEq, Eq, Structural)]
pub struct Interval {
    pub secs: u64,
    pub nanos: u32,
}

/// The text of an optional string.
pub open spec fn text(s: Option<String>) -> Option<Seq<char>> {
    match s {
        Some(s) => Some(s@),
        None => None,
    }
}

/// The name of a background task.
#[derive(Debug)]
pub struct BackgroundTaskIdent {
    pub tenant: String,
    pub task_id: String,
}

/// What a `BackgroundTaskIdent` is.
pub struct TaskIdentModel {
    pub tenant: Seq<char>,
    pub task_id: Seq<char>,
}

impl View for BackgroundTaskIdent {
    type V = TaskIdentModel;

    open spec fn view(&self) -> TaskIdentModel {
        TaskIdentModel { tenant: self.tenant@, task_id: self.task_id@ }
    }
}

/// What is recorded of a background task. The statistics and the creator are kept as text.
#[derive(Debug)]
pub struct BackgroundTaskInfo {
    pub last_updated: Option<Timestamp>,
    pub task_type: BackgroundTaskType,
    pub task_state: BackgroundTaskState,
    pub message: String,
    pub compaction_task_stats: Option<String>,
    pub vacuum_stats: Option<String>,
    pub creator: Option<String>,
    pub created_at: Timestamp,
}

/// What a `BackgroundTaskInfo` is.
pub struct TaskInfoModel {
    pub last_updated: Option<Timestamp>,
    pub task_type: BackgroundTaskType,
    pub task_state: BackgroundTaskState,
    pub message: Seq<char>,
    pub compaction_task_stats: Option<Seq<char>>,
    pub vacuum_stats: Option<Seq<char>>,
    pub creator: Option<Seq<char>>,
    pub created_at: Timestamp,
}

impl View for BackgroundTaskInfo {
    type V = TaskInfoModel;

    open spec fn view(&self) -> TaskInfoModel {
        TaskInfoModel {
            last_updated: self.last_updated,
            task_type: self.task_type,
            task_state: self.task_state,
            message: self.message@,
            compaction_task_stats: text(self.compaction_task_stats),
            vacuum_stats: text(self.vacuum_stats),
            creator: text(self.creator),
            created_at: self.created_at,
        }
    }
}

/// The name of a background job.
#[derive(Debug)]
pub struct BackgroundJobIdent {
    pub tenant: String,
    pub name: String,
}

/// What a `BackgroundJobIdent` is.
pub struct JobIdentModel {
    pub tenant: Seq<char>,
    pub name: Seq<char>,
}

impl View for BackgroundJobIdent {
    type V = JobIdentModel;

    open spec fn view(&self) -> JobIdentModel {
        JobIdentModel { tenant: self.tenant@, name: self.name@ }
    }
}

/// When a background job is to run. The time zone is kept by its name.
#[derive(Debug)]
pub struct BackgroundJobParams {
    pub job_type: BackgroundJobType,
    pub scheduled_job_interval: Interval,
    pub scheduled_job_cron: String,
    pub scheduled_job_timezone: Option<String>,
}

/// What a `BackgroundJobParams` is.
pub struct JobParamsModel {
    pub job_type: BackgroundJobType,
    pub scheduled_job_interval: Interval,
    pub scheduled_job_cron: Seq<char>,
    pub scheduled_job_timezone: Option<Seq<char>>,
}

impl View for BackgroundJobParams {
    type V = JobParamsModel;

    open spec fn view(&self) -> JobParamsModel {
        JobParamsModel {
            job_type: self.job_type,
            scheduled_job_interval: self.scheduled_job_interval,
            scheduled_job_cron: self.scheduled_job_cron@,
            scheduled_job_timezone: text(self.scheduled_job_timezone),
        }
    }
}

/// How the last run of a background job went and when the next one is due.
#[derive(Debug)]
pub struct BackgroundJobStatus {
    pub job_state: BackgroundJobState,
    pub last_task_id: Option<String>,
    pub last_task_run_at: Option<Timestamp>,
    pub next_task_scheduled_time: Option<Timestamp>,
}

/// What a `BackgroundJobStatus` is.
pub struct JobStatusModel {
    pub job_state: BackgroundJobState,
    pub last_task_id: Option<Seq<char>>,
    pub last_task_run_at: Option<Timestamp>,
    pub next_task_scheduled_time: Option<Timestamp>,
}

impl View for BackgroundJobStatus {
    type V = JobStatusModel;

    open spec fn view(&self) -> JobStatusModel {
        JobStatusModel {
            job_state: self.job_state,
            last_task_id: text(self.last_task_id),
            last_task_run_at: self.last_task_run_at,
            next_task_scheduled_time: self.next_task_scheduled_time,
        }
    }
}

/// What is recorded of a background job. The creator is kept as text.
#[derive(Debug)]
pub struct BackgroundJobInfo {
    pub job_params: Option<BackgroundJobParams>,
    pub last_updated: Option<Timestamp>,
    pub task_type: BackgroundTaskType,
    pub message: String,
    pub creator: Option<String>,
    pub created_at: Timestamp,
    pub job_status: Option<BackgroundJobStatus>,
}

/// What a `BackgroundJobInfo` is.
pub struct JobInfoModel {
    pub job_params: Option<JobParamsModel>,
    pub last_updated: Option<Timestamp>,
    pub task_type: BackgroundTaskType,
    pub message: Seq<char>,
    pub creator: Option<Seq<char>>,
    pub created_at: Timestamp,
    pub job_status: Option<JobStatusModel>,
}

impl View for BackgroundJobInfo {
    type V = JobInfoModel;

    open spec fn view(&self) -> JobInfoModel {
        JobInfoModel {
            job_params: match self.job_params {
                Some(params) => Some(params@),
                None => None,
            },
            last_updated: self.last_updated,
            task_type: self.task_type,
            message: self.message@,
            creator: text(self.creator),
            created_at: self.created_at,
            job_status: match self.job_status {
                Some(status) => Some(status@),
                None => None,
            },
        }
    }
}

/// A call of the API failed, with this message.
#[derive(Debug)]
pub struct ApiError {
    pub message: String,
}

/// A request to the API for background tasks.
#[derive(Debug)]
pub enum TaskRequest {
    /// Lists the tasks of a tenant.
    List { tenant: String },
    /// Writes a task, to be kept until `expire_at` (in seconds since 1970).
    Update { task_name: BackgroundTaskIdent, task_info: BackgroundTaskInfo, expire_at: u64 },
    /// Reads a task.
    Get { name: BackgroundTaskIdent },
}

/// What a `TaskRequest` is.
pub enum TaskRequestModel {
    List { tenant: Seq<char> },
    Update { task_name: TaskIdentModel, task_info: TaskInfoModel, expire_at: u64 },
    Get { name: TaskIdentModel },
}

impl View for TaskRequest {
    type V = TaskRequestModel;

    open spec fn view(&self) -> TaskRequestModel {
        match *self {
            TaskRequest::List { tenant } => TaskRequestModel::List { tenant: tenant@ },
            TaskRequest::Update { task_name, task_info, expire_at } => TaskRequestModel::Update {
                task_name: task_name@,
                task_info: task_info@,
                expire_at,
            },
            TaskRequest::Get { name } => TaskRequestModel::Get { name: name@ },
        }
    }
}

/// A reply of the API for background tasks. A list entry is a number, the id of the task and what
/// is recorded of it.
#[derive(Debug)]
pub enum TaskReply {
    List(Result<Vec<(u64, String, BackgroundTaskInfo)>, ApiError>),
    Update(Result<(), ApiError>),
    Get(Result<Option<BackgroundTaskInfo>, ApiError>),
}

/// A request to the API for background jobs.
#[derive(Debug)]
pub enum JobRequest {
    /// Lists the jobs of a tenant.
    List { tenant: String },
    /// Creates a job.
    Create { if_not_exists: bool, job_name: BackgroundJobIdent, job_info: BackgroundJobInfo },
    /// Reads a job.
    Get { name: BackgroundJobIdent },
    /// Writes the parameters of a job.
    UpdateParams { job_name: BackgroundJobIdent, params: BackgroundJobParams },
    /// Writes the status of a job.
    UpdateStatus { job_name: BackgroundJobIdent, status: BackgroundJobStatus },
}

/// What a `JobRequest` is.
pub enum JobRequestModel {
    List { tenant: Seq<char> },
    Create { if_not_exists: bool, job_name: JobIdentModel, job_info: JobInfoModel },
    Get { name: JobIdentModel },
    UpdateParams { job_name: JobIdentModel, params: JobParamsModel },
    UpdateStatus { job_name: JobIdentModel, status: JobStatusModel },
}

impl View for JobRequest {
    type V = JobRequestModel;

    open spec fn view(&self) -> JobRequestModel {
        match *self {
            JobRequest::List { tenant } => JobRequestModel::List { tenant: tenant@ },
            JobRequest::Create { if_not_exists, job_name, job_info } => JobRequestModel::Create {
                if_not_exists,
                job_name: job_name@,
                job_info: job_info@,
            },
            JobRequest::Get { name } => JobRequestModel::Get { name: name@ },
            JobRequest::UpdateParams { job_name, params } => JobRequestModel::UpdateParams {
                job_name: job_name@,
                params: params@,
            },
            JobRequest::UpdateStatus { job_name, status } => JobRequestModel::UpdateStatus {
                job_name: job_name@,
                status: status@,
            },
        }
    }
}

/// A reply of the API for background jobs. A list entry is a number, the name of the job and what
/// is recorded of it.
#[derive(Debug)]
pub enum JobReply {
    List(Result<Vec<(u64, String, BackgroundJobInfo)>, ApiError>),
    Create(Result<(), ApiError>),
    Get(Result<BackgroundJobInfo, ApiError>),
    UpdateParams(Result<(), ApiError>),
    UpdateStatus(Result<(), ApiError>),
}

/// What `new_background_task` records.
pub open spec fn fresh_task(state: BackgroundTaskState, created_at: Timestamp) -> TaskInfoModel {
    TaskInfoModel {
        last_updated: None,
        task_type: BackgroundTaskType::COMPACTION,
        task_state: state,
        message: Seq::empty(),
        compaction_task_stats: None,
        vacuum_stats: None,
        creator: None,
        created_at,
    }
}

/// What `new_background_job` records.
pub open spec fn fresh_job(state: BackgroundJobState, created_at: Timestamp) -> JobInfoModel {
    JobInfoModel {
        job_params: Some(
            JobParamsModel {
                job_type: BackgroundJobType::ONESHOT,
                scheduled_job_interval: Interval { secs: 0, nanos: 0 },
                scheduled_job_cron: Seq::empty(),
                scheduled_job_timezone: None,
            },
        ),
        last_updated: None,
        task_type: BackgroundTaskType::COMPACTION,
        message: Seq::empty(),
        creator: None,
        created_at,
        job_status: Some(
            JobStatusModel {
                job_state: state,
                last_task_id: None,
                last_task_run_at: None,
                next_task_scheduled_time: None,
            },
        ),
    }
}

/// The record of a task in `state`, with nothing else known of it.
pub fn new_background_task(state: BackgroundTaskState, created_at: Timestamp) -> (res:
    BackgroundTaskInfo)
    ensures
        res@ == fresh_task(state, created_at),
        res.task_state == state,
        res.created_at == created_at,
        res.task_type == BackgroundTaskType::COMPACTION,
        res.message@.len() == 0,
        res.last_updated is None,
        res.compaction_task_stats is None,
        res.vacuum_stats is None,
        res.creator is None,
{
    BackgroundTaskInfo {
        last_updated: None,
        task_type: BackgroundTaskType::default(),
        task_state: state,
        message: String::new(),
        compaction_task_stats: None,
        vacuum_stats: None,
        creator: None,
        created_at,
    }
}

/// The record of a job in `state` that runs once, with nothing else known of it.
pub fn new_background_job(state: BackgroundJobState, created_at: Timestamp) -> (res:
    BackgroundJobInfo)
    ensures
        res@ == fresh_job(state, created_at),
        res.created_at == created_at,
        res.task_type == BackgroundTaskType::COMPACTION,
        res.message@.len() == 0,
        res.last_updated is None,
        res.creator is None,
        res.job_params matches Some(params) && {
            &&& params.job_type == BackgroundJobType::ONESHOT
            &&& params.scheduled_job_interval.secs == 0
            &&& params.scheduled_job_interval.nanos == 0
            &&& params.scheduled_job_cron@.len() == 0
            &&& params.scheduled_job_timezone is None
        },
        res.job_status matches Some(status) && {
            &&& status.job_state == state
            &&& status.last_task_id is None
            &&& status.last_task_run_at is None
            &&& status.next_task_scheduled_time is None
        },
{
    BackgroundJobInfo {
        job_params: Some(
            BackgroundJobParams {
                job_type: BackgroundJobType::ONESHOT,
                scheduled_job_interval: Interval { secs: 0, nanos: 0 },
                scheduled_job_timezone: None,
                scheduled_job_cron: String::new(),
            },
        ),
        last_updated: None,
        task_type: BackgroundTaskType::default(),
        message: String::new(),
        creator: None,
        created_at,
        job_status: Some(
            BackgroundJobStatus {
                job_state: state,
                last_task_id: None,
                last_task_run_at: None,
                next_task_scheduled_time: None,
            },
        ),
    }
}

/// The model of a request for tasks holds everything that the request holds.
pub proof fn lemma_task_request_model(request: TaskRequest)
    ensures
        match request {
            TaskRequest::List { tenant } => {
                &&& request@ matches TaskRequestModel::List { tenant: listed }
                &&& listed == tenant@
            },
            TaskRequest::Update { task_name, task_info, expire_at } => {
                &&& request@ matches TaskRequestModel::Update {
                    task_name: name,
                    task_info: info,
                    expire_at: expiry,
                }
                &&& name.tenant == task_name.tenant@
                &&& name.task_id == task_name.task_id@
                &&& info.last_updated == task_info.last_updated
                &&& info.task_type == task_info.task_type
                &&& info.task_state == task_info.task_state
                &&& info.message == task_info.message@
                &&& info.compaction_task_stats is Some <==> task_info.compaction_task_stats is Some
                &&& info.vacuum_stats is Some <==> task_info.vacuum_stats is Some
                &&& info.creator is Some <==> task_info.creator is Some
                &&& info.created_at == task_info.created_at
                &&& expiry == expire_at
            },
            TaskRequest::Get { name } => {
                &&& request@ matches TaskRequestModel::Get { name: read }
                &&& read.tenant == name.tenant@
                &&& read.task_id == name.task_id@
            },
        },
{
}

/// The model of a request for jobs holds everything that the request holds.
pub proof fn lemma_job_request_model(request: JobRequest)
    ensures
        match request {
            JobRequest::List { tenant } => {
                &&& request@ matches JobRequestModel::List { tenant: listed }
                &&& listed == tenant@
            },
            JobRequest::Create { if_not_exists, job_name, job_info } => {
                &&& request@ matches JobRequestModel::Create {
                    if_not_exists: flag,
                    job_name: name,
                    job_info: info,
                }
                &&& flag == if_not_exists
                &&& name.tenant == job_name.tenant@
                &&& name.name == job_name.name@
                &&& info.last_updated == job_info.last_updated
                &&& info.task_type == job_info.task_type
                &&& info.message == job_info.message@
                &&& info.creator is Some <==> job_info.creator is Some
                &&& info.created_at == job_info.created_at
                &&& info.job_params is Some <==> job_info.job_params is Some
                &&& job_info.job_params matches Some(params) ==> same_params(
                    params,
                    info.job_params->0,
                )
                &&& info.job_status is Some <==> job_info.job_status is Some
                &&& job_info.job_status matches Some(status) ==> same_status(
                    status,
                    info.job_status->0,
                )
            },
            JobRequest::Get { name } => {
                &&& request@ matches JobRequestModel::Get { name: read }
                &&& read.tenant == name.tenant@
                &&& read.name == name.name@
            },
            JobRequest::UpdateParams { job_name, params } => {
                &&& request@ matches JobRequestModel::UpdateParams {
                    job_name: name,
                    params: written,
                }
                &&& name.tenant == job_name.tenant@
                &&& name.name == job_name.name@
                &&& same_params(params, written)
            },
            JobRequest::UpdateStatus { job_name, status } => {
                &&& request@ matches JobRequestModel::UpdateStatus {
                    job_name: name,
                    status: written,
                }
                &&& name.tenant == job_name.tenant@
                &&& name.name == job_name.name@
                &&& same_status(status, written)
            },
        },
{
}

/// The parameters and their model say the same.
pub open spec fn same_params(params: BackgroundJobParams, model: JobParamsModel) -> bool {
    &&& model.job_type == params.job_type
    &&& model.scheduled_job_interval == params.scheduled_job_interval
    &&& model.scheduled_job_cron == params.scheduled_job_cron@
    &&& model.scheduled_job_timezone is Some <==> params.scheduled_job_timezone is Some
    &&& params.scheduled_job_timezone matches Some(zone) ==> model.scheduled_job_timezone->0
        == zone@
}

/// The status and its model say the same.
pub open spec fn same_status(status: BackgroundJobStatus, model: JobStatusModel) -> bool {
    &&& model.job_state == status.job_state
    &&& model.last_task_id is Some <==> status.last_task_id is Some
    &&& status.last_task_id matches Some(id) ==> model.last_task_id->0 == id@
    &&& model.last_task_run_at == status.last_task_run_at
    &&& model.next_task_scheduled_time == status.next_task_scheduled_time
}

} // verus!
