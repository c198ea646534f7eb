//! What holds of the suite of checks as a whole.
use crate::background::{
    BackgroundJobInfo, BackgroundJobState, BackgroundJobType, BackgroundTaskInfo,
    BackgroundTaskState, BackgroundTaskType, JobIdentModel, JobInfoModel, JobReply,
    JobRequestModel, TaskIdentModel, TaskInfoModel, TaskReply, TaskRequestModel,
};
use crate::check::CheckFailure;
use crate::job_run::{failed, hourly, job_ident, job_next, job_request, JobRun};
use crate::suite::{after_jobs, after_tasks, suite_next, SuiteEvent, SuiteRun};
use crate::task_run::{expiry, task_name, task_next, task_request, TaskRun};
use crate::timestamp::{Timestamp, MAX_SECS};
use vstd::prelude::*;

verus! {

/// The number of replies that the task checks still wait for.
pub open spec fn tasks_left(run: TaskRun) -> int {
    match run {
        TaskRun::ListNone => 6,
        TaskRun::UpdateStarted { .. } => 5,
        TaskRun::GetStarted { .. } => 4,
        TaskRun::UpdateDone { .. } => 3,
        TaskRun::GetDone => 2,
        TaskRun::ListDone => 1,
        TaskRun::Finished => 0,
    }
}

/// The number of replies that the job checks still wait for.
pub open spec fn jobs_left(run: JobRun) -> int {
    match run {
        JobRun::ListNone => 8,
        JobRun::Create { .. } => 7,
        JobRun::GetCreated => 6,
        JobRun::UpdateParams => 5,
        JobRun::GetParams => 4,
        JobRun::UpdateStatus => 3,
        JobRun::GetStatus => 2,
        JobRun::ListJobs => 1,
        JobRun::Finished => 0,
    }
}

/// The number of events that the suite still waits for.
pub open spec fn suite_left(run: SuiteRun) -> int {
    match run {
        SuiteRun::BuildForTasks => 16,
        SuiteRun::Tasks(tasks) => 9 + tasks_left(tasks),
        SuiteRun::BuildForJobs => 9,
        SuiteRun::Jobs(jobs) => jobs_left(jobs),
        SuiteRun::Finished => 0,
    }
}

/// What holds of every state of the task checks: the task that they write expires five seconds
/// after its creation.
pub open spec fn task_consistent(run: TaskRun) -> bool {
    match run {
        TaskRun::UpdateStarted { create_on, expire_at } => expiry(create_on) == Some(expire_at),
        TaskRun::GetStarted { create_on, expire_at } => expiry(create_on) == Some(expire_at),
        TaskRun::UpdateDone { create_on, expire_at } => expiry(create_on) == Some(expire_at),
        _ => true,
    }
}

/// What holds of every state of the suite.
pub open spec fn suite_consistent(run: SuiteRun) -> bool {
    match run {
        SuiteRun::Tasks(tasks) => task_consistent(tasks) && tasks !is Finished,
        SuiteRun::Jobs(jobs) => jobs !is Finished,
        _ => true,
    }
}

/// The suite opens in a consistent state and stays in consistent states. Each event that passes
/// brings it one event closer to its end, and only the end has none left.
pub proof fn lemma_suite_makes_progress(run: SuiteRun, event: SuiteEvent, now: Timestamp)
    requires
        suite_consistent(run),
    ensures
        suite_consistent(SuiteRun::BuildForTasks),
        suite_left(run) >= 0,
        suite_left(run) == 0 <==> run is Finished,
        suite_next(run, event, now) matches Ok(after) ==> suite_consistent(after) && suite_left(
            after,
        ) == suite_left(run) - 1,
{
}

/// Where the task checks end up on `replies`, one after the other.
pub open spec fn task_outcome(run: TaskRun, replies: Seq<TaskReply>, now: Timestamp) -> Result<
    TaskRun,
    CheckFailure,
>
    decreases replies.len(),
{
    if replies.len() == 0 {
        Ok(run)
    } else {
        match task_next(run, replies[0], now) {
            Ok(after) => task_outcome(after, replies.drop_first(), now),
            Err(failure) => Err(failure),
        }
    }
}

/// Where the job checks end up on `replies`, one after the other.
pub open spec fn job_outcome(run: JobRun, replies: Seq<JobReply>, now: Timestamp) -> Result<
    JobRun,
    CheckFailure,
>
    decreases replies.len(),
{
    if replies.len() == 0 {
        Ok(run)
    } else {
        match job_next(run, replies[0], now) {
            Ok(after) => job_outcome(after, replies.drop_first(), now),
            Err(failure) => Err(failure),
        }
    }
}

/// The reply reads the task as being in `state`.
pub open spec fn reads_as(reply: TaskReply, state: BackgroundTaskState) -> bool {
    reply matches TaskReply::Get(Ok(Some(info))) && info.task_state == state
}

/// What it takes to pass the task checks: nothing is listed at first, both writes are answered in
/// whatever way, the task reads as started after the first and as done after the second, and it is
/// then the only one listed.
pub open spec fn passes_task_checks(replies: Seq<TaskReply>) -> bool {
    &&& replies.len() == 6
    &&& replies[0] matches TaskReply::List(Ok(entries)) && entries@.len() == 0
    &&& replies[1] is Update
    &&& reads_as(replies[2], BackgroundTaskState::STARTED)
    &&& replies[3] is Update
    &&& reads_as(replies[4], BackgroundTaskState::DONE)
    &&& replies[5] matches TaskReply::List(Ok(entries)) && {
        &&& entries@.len() == 1
        &&& entries@[0].1@ == task_name().task_id
        &&& entries@[0].2.task_state == BackgroundTaskState::DONE
    }
}

proof fn lemma_task_outcome_length(run: TaskRun, replies: Seq<TaskReply>, now: Timestamp)
    ensures
        task_outcome(run, replies, now) matches Ok(after) ==> replies.len() == tasks_left(run)
            - tasks_left(after),
    decreases replies.len(),
{
    if replies.len() > 0 {
        if let Ok(after) = task_next(run, replies[0], now) {
            lemma_task_outcome_length(after, replies.drop_first(), now);
        }
    }
}

proof fn lemma_task_outcome_step(run: TaskRun, replies: Seq<TaskReply>, i: int, now: Timestamp)
    requires
        0 <= i < replies.len(),
    ensures
        task_outcome(run, replies.skip(i), now) == match task_next(run, replies[i], now) {
            Ok(after) => task_outcome(after, replies.skip(i + 1), now),
            Err(failure) => Err(failure),
        },
{
    assert(replies.skip(i)[0] == replies[i]);
    assert(replies.skip(i).drop_first() =~= replies.skip(i + 1));
}

/// The task checks are passed on the replies that `passes_task_checks` describes and on no
/// others, and only while the calendar has the time at which the task expires.
pub proof fn lemma_task_checks(replies: Seq<TaskReply>, now: Timestamp)
    ensures
        task_outcome(TaskRun::ListNone, replies, now) == Ok::<TaskRun, CheckFailure>(
            TaskRun::Finished,
        ) <==> now.later(5) is Some && passes_task_checks(replies),
{
    lemma_task_outcome_length(TaskRun::ListNone, replies, now);
    if replies.len() == 6 {
        assert(replies.skip(0) =~= replies);
        let s0 = TaskRun::ListNone;
        lemma_task_outcome_step(s0, replies, 0, now);
        if let Ok(s1) = task_next(s0, replies[0], now) {
            lemma_task_outcome_step(s1, replies, 1, now);
            if let Ok(s2) = task_next(s1, replies[1], now) {
                lemma_task_outcome_step(s2, replies, 2, now);
                if let Ok(s3) = task_next(s2, replies[2], now) {
                    lemma_task_outcome_step(s3, replies, 3, now);
                    if let Ok(s4) = task_next(s3, replies[3], now) {
                        lemma_task_outcome_step(s4, replies, 4, now);
                        if let Ok(s5) = task_next(s4, replies[4], now) {
                            lemma_task_outcome_step(s5, replies, 5, now);
                            assert(replies.skip(6).len() == 0);
                        }
                    }
                }
            }
        }
    }
}

/// The reply reads the job with a status in `state`.
pub open spec fn job_reads_as(reply: JobReply, state: BackgroundJobState) -> bool {
    reply matches JobReply::Get(Ok(info)) && has_state(info, state)
}

/// The job has a status in `state`.
pub open spec fn has_state(info: BackgroundJobInfo, state: BackgroundJobState) -> bool {
    info.job_status matches Some(status) && status.job_state == state
}

/// The job has parameters by which it runs at intervals.
pub open spec fn has_interval_type(info: BackgroundJobInfo) -> bool {
    info.job_params matches Some(params) && params.job_type == BackgroundJobType::INTERVAL
}

/// What it takes to pass the job checks: nothing is listed at first, the three writes are answered
/// in whatever way, the job then reads as running, with the new parameters and with the new
/// status, and it is the only one listed, with both.
pub open spec fn passes_job_checks(replies: Seq<JobReply>) -> bool {
    &&& replies.len() == 8
    &&& replies[0] matches JobReply::List(Ok(entries)) && entries@.len() == 0
    &&& replies[1] is Create
    &&& job_reads_as(replies[2], BackgroundJobState::RUNNING)
    &&& replies[3] is UpdateParams
    &&& replies[4] matches JobReply::Get(Ok(info)) && {
        &&& has_interval_type(info)
        &&& info.job_params->0.scheduled_job_interval == hourly().scheduled_job_interval
    }
    &&& replies[5] is UpdateStatus
    &&& replies[6] matches JobReply::Get(Ok(info)) && {
        &&& has_state(info, BackgroundJobState::FAILED)
        &&& info.job_status->0@.last_task_id == failed().last_task_id
    }
    &&& replies[7] matches JobReply::List(Ok(entries)) && {
        &&& entries@.len() == 1
        &&& entries@[0].1@ == job_ident().name
        &&& has_state(entries@[0].2, BackgroundJobState::FAILED)
        &&& has_interval_type(entries@[0].2)
    }
}

proof fn lemma_job_outcome_length(run: JobRun, replies: Seq<JobReply>, now: Timestamp)
    ensures
        job_outcome(run, replies, now) matches Ok(after) ==> replies.len() == jobs_left(run)
            - jobs_left(after),
    decreases replies.len(),
{
    if replies.len() > 0 {
        if let Ok(after) = job_next(run, replies[0], now) {
            lemma_job_outcome_length(after, replies.drop_first(), now);
        }
    }
}

proof fn lemma_job_outcome_step(run: JobRun, replies: Seq<JobReply>, i: int, now: Timestamp)
    requires
        0 <= i < replies.len(),
    ensures
        job_outcome(run, replies.skip(i), now) == match job_next(run, replies[i], now) {
            Ok(after) => job_outcome(after, replies.skip(i + 1), now),
            Err(failure) => Err(failure),
        },
{
    assert(replies.skip(i)[0] == replies[i]);
    assert(replies.skip(i).drop_first() =~= replies.skip(i + 1));
}

/// The job checks are passed on the replies that `passes_job_checks` describes and on no others.
pub proof fn lemma_job_checks(replies: Seq<JobReply>, now: Timestamp)
    ensures
        job_outcome(JobRun::ListNone, replies, now) == Ok::<JobRun, CheckFailure>(JobRun::Finished)
            <==> passes_job_checks(replies),
{
    lemma_job_outcome_length(JobRun::ListNone, replies, now);
    if replies.len() == 8 {
        assert(replies.skip(0) =~= replies);
        let s0 = JobRun::ListNone;
        lemma_job_outcome_step(s0, replies, 0, now);
        if let Ok(s1) = job_next(s0, replies[0], now) {
            lemma_job_outcome_step(s1, replies, 1, now);
            if let Ok(s2) = job_next(s1, replies[1], now) {
                lemma_job_outcome_step(s2, replies, 2, now);
                if let Ok(s3) = job_next(s2, replies[2], now) {
                    lemma_job_outcome_step(s3, replies, 3, now);
                    if let Ok(s4) = job_next(s3, replies[3], now) {
                        lemma_job_outcome_step(s4, replies, 4, now);
                        if let Ok(s5) = job_next(s4, replies[4], now) {
                            lemma_job_outcome_step(s5, replies, 5, now);
                            if let Ok(s6) = job_next(s5, replies[5], now) {
                                lemma_job_outcome_step(s6, replies, 6, now);
                                if let Ok(s7) = job_next(s6, replies[6], now) {
                                    lemma_job_outcome_step(s7, replies, 7, now);
                                    assert(replies.skip(8).len() == 0);
                                }
                            }
                        }
                    }
                }
            }
        }
    }
}

/// The tasks that an implementation keeps.
pub type TaskStore = Map<TaskIdentModel, TaskInfoModel>;

/// The store keeps no task of the tenant.
pub open spec fn no_task_of(store: TaskStore, tenant: Seq<char>) -> bool {
    forall|name: TaskIdentModel| #[trigger] store.contains_key(name) ==> name.tenant != tenant
}

/// What the store keeps after `request`.
pub open spec fn task_stored(store: TaskStore, request: TaskRequestModel) -> TaskStore {
    match request {
        TaskRequestModel::Update { task_name, task_info, .. } => store.insert(
            task_name,
            task_info,
        ),
        _ => store,
    }
}

/// The entries are the tasks of the tenant that the store keeps, each once, with their states.
pub open spec fn lists_tasks(
    entries: Seq<(u64, String, BackgroundTaskInfo)>,
    store: TaskStore,
    tenant: Seq<char>,
) -> bool {
    &&& forall|i: int, j: int|
        0 <= i < j < entries.len() ==> (#[trigger] entries[i]).1@ != (#[trigger] entries[j]).1@
    &&& forall|i: int|
        0 <= i < entries.len() ==> {
            let name = TaskIdentModel { tenant, task_id: (#[trigger] entries[i]).1@ };
            &&& store.contains_key(name)
            &&& entries[i].2.task_state == store[name].task_state
        }
    &&& forall|name: TaskIdentModel| #[trigger]
        store.contains_key(name) && name.tenant == tenant ==> exists|i: int|
            0 <= i < entries.len() && (#[trigger] entries[i]).1@ == name.task_id
}

/// The reply is right for an implementation that keeps `store`: a list gives the tasks of the
/// tenant, a read gives back the state that was written last.
pub open spec fn right_task_reply(
    store: TaskStore,
    request: TaskRequestModel,
    reply: TaskReply,
) -> bool {
    match request {
        TaskRequestModel::List { tenant } => reply matches TaskReply::List(Ok(entries))
            && lists_tasks(entries@, store, tenant),
        TaskRequestModel::Update { .. } => reply is Update,
        TaskRequestModel::Get { name } => store.contains_key(name) ==> reads_as(
            reply,
            store[name].task_state,
        ),
    }
}

/// An implementation that keeps `store` when the checks are in the state `run` gives the right
/// replies from there on.
pub open spec fn right_task_replies(
    run: TaskRun,
    store: TaskStore,
    replies: Seq<TaskReply>,
    now: Timestamp,
) -> bool
    decreases replies.len(),
{
    replies.len() > 0 ==> {
        &&& task_request(run) matches Some(request)
        &&& right_task_reply(store, request, replies[0])
        &&& task_next(run, replies[0], now) matches Ok(after) ==> right_task_replies(
            after,
            task_stored(store, request),
            replies.drop_first(),
            now,
        )
    }
}

/// Of the tenant's tasks, the store keeps just the one that the checks write, in `state`.
pub open spec fn keeps_one_task(store: TaskStore, state: BackgroundTaskState) -> bool {
    &&& store.contains_key(task_name())
    &&& store[task_name()].task_state == state
    &&& forall|name: TaskIdentModel| #[trigger]
        store.contains_key(name) && name.tenant == task_name().tenant ==> name == task_name()
}

/// What the store keeps in each state of the checks.
pub open spec fn tasks_kept(run: TaskRun, store: TaskStore) -> bool {
    match run {
        TaskRun::ListNone => no_task_of(store, task_name().tenant),
        TaskRun::UpdateStarted { .. } => no_task_of(store, task_name().tenant),
        TaskRun::GetStarted { .. } => keeps_one_task(store, BackgroundTaskState::STARTED),
        TaskRun::UpdateDone { .. } => keeps_one_task(store, BackgroundTaskState::STARTED),
        TaskRun::GetDone => keeps_one_task(store, BackgroundTaskState::DONE),
        TaskRun::ListDone => keeps_one_task(store, BackgroundTaskState::DONE),
        TaskRun::Finished => true,
    }
}

proof fn lemma_right_task_reply_passes(
    run: TaskRun,
    store: TaskStore,
    reply: TaskReply,
    now: Timestamp,
)
    requires
        run is ListNone ==> now.later(5) is Some,
        tasks_kept(run, store),
        task_request(run) is Some,
        right_task_reply(store, task_request(run)->0, reply),
    ensures
        task_next(run, reply, now) is Ok,
        tasks_kept(task_next(run, reply, now)->Ok_0, task_stored(store, task_request(run)->0)),
{
    match run {
        TaskRun::ListNone => {
            let entries = reply->List_0->Ok_0@;
            if entries.len() > 0 {
                let name = TaskIdentModel {
                    tenant: task_name().tenant,
                    task_id: entries[0].1@,
                };
                assert(store.contains_key(name));
            }
        },
        TaskRun::ListDone => {
            let entries = reply->List_0->Ok_0@;
            assert(store.contains_key(task_name()));
            let i = choose|i: int|
                0 <= i < entries.len() && (#[trigger] entries[i]).1@ == task_name().task_id;
            assert forall|j: int| 0 <= j < entries.len() implies (#[trigger] entries[j]).1@
                == task_name().task_id by {
                let name = TaskIdentModel {
                    tenant: task_name().tenant,
                    task_id: entries[j].1@,
                };
                assert(store.contains_key(name));
            }
            if entries.len() > 1 {
                assert(entries[0].1@ != entries[1].1@);
            }
        },
        _ => {},
    }
}

/// An implementation that gives back what was written last passes the task checks: from a store
/// without tasks of the tenant, right replies fail no check, and six of them end the checks. The
/// calendar must have the time at which the task expires.
pub proof fn lemma_right_task_replies_pass(
    run: TaskRun,
    store: TaskStore,
    replies: Seq<TaskReply>,
    now: Timestamp,
)
    requires
        run is ListNone ==> now.later(5) is Some,
        tasks_kept(run, store),
        right_task_replies(run, store, replies, now),
    ensures
        task_outcome(run, replies, now) is Ok,
        replies.len() == tasks_left(run) ==> task_outcome(run, replies, now) == Ok::<
            TaskRun,
            CheckFailure,
        >(TaskRun::Finished),
    decreases replies.len(),
{
    lemma_task_outcome_length(run, replies, now);
    if replies.len() > 0 {
        let request = task_request(run)->0;
        lemma_right_task_reply_passes(run, store, replies[0], now);
        let after = task_next(run, replies[0], now)->Ok_0;
        lemma_right_task_replies_pass(
            after,
            task_stored(store, request),
            replies.drop_first(),
            now,
        );
    }
}

/// The jobs that an implementation keeps.
pub type JobStore = Map<JobIdentModel, JobInfoModel>;

/// The store keeps no job of the tenant.
pub open spec fn no_job_of(store: JobStore, tenant: Seq<char>) -> bool {
    forall|name: JobIdentModel| #[trigger] store.contains_key(name) ==> name.tenant != tenant
}

/// What the store keeps after `request`: a job is created only where there is none of that name,
/// and only a job that is there gets new parameters or a new status.
pub open spec fn job_stored(store: JobStore, request: JobRequestModel) -> JobStore {
    match request {
        JobRequestModel::Create { job_name, job_info, .. } => if store.contains_key(job_name) {
            store
        } else {
            store.insert(job_name, job_info)
        },
        JobRequestModel::UpdateParams { job_name, params } => if store.contains_key(job_name) {
            store.insert(job_name, JobInfoModel { job_params: Some(params), ..store[job_name] })
        } else {
            store
        },
        JobRequestModel::UpdateStatus { job_name, status } => if store.contains_key(job_name) {
            store.insert(job_name, JobInfoModel { job_status: Some(status), ..store[job_name] })
        } else {
            store
        },
        _ => store,
    }
}

/// The job shows the parameters and the status that are kept of it.
pub open spec fn shows(info: BackgroundJobInfo, kept: JobInfoModel) -> bool {
    info@.job_params == kept.job_params && info@.job_status == kept.job_status
}

/// The entries are the jobs of the tenant that the store keeps, each once, with their parameters
/// and statuses.
pub open spec fn lists_jobs(
    entries: Seq<(u64, String, BackgroundJobInfo)>,
    store: JobStore,
    tenant: Seq<char>,
) -> bool {
    &&& forall|i: int, j: int|
        0 <= i < j < entries.len() ==> (#[trigger] entries[i]).1@ != (#[trigger] entries[j]).1@
    &&& forall|i: int|
        0 <= i < entries.len() ==> {
            let name = JobIdentModel { tenant, name: (#[trigger] entries[i]).1@ };
            &&& store.contains_key(name)
            &&& shows(entries[i].2, store[name])
        }
    &&& forall|name: JobIdentModel| #[trigger]
        store.contains_key(name) && name.tenant == tenant ==> exists|i: int|
            0 <= i < entries.len() && (#[trigger] entries[i]).1@ == name.name
}

/// The reply is right for an implementation that keeps `store`: a list gives the jobs of the
/// tenant, a read gives back the parameters and the status that were written last.
pub open spec fn right_job_reply(
    store: JobStore,
    request: JobRequestModel,
    reply: JobReply,
) -> bool {
    match request {
        JobRequestModel::List { tenant } => reply matches JobReply::List(Ok(entries))
            && lists_jobs(entries@, store, tenant),
        JobRequestModel::Create { .. } => reply is Create,
        JobRequestModel::Get { name } => store.contains_key(name) ==> (reply matches JobReply::Get(
            Ok(info),
        ) && shows(info, store[name])),
        JobRequestModel::UpdateParams { .. } => reply is UpdateParams,
        JobRequestModel::UpdateStatus { .. } => reply is UpdateStatus,
    }
}

/// An implementation that keeps `store` when the checks are in the state `run` gives the right
/// replies from there on.
pub open spec fn right_job_replies(
    run: JobRun,
    store: JobStore,
    replies: Seq<JobReply>,
    now: Timestamp,
) -> bool
    decreases replies.len(),
{
    replies.len() > 0 ==> {
        &&& job_request(run) matches Some(request)
        &&& right_job_reply(store, request, replies[0])
        &&& job_next(run, replies[0], now) matches Ok(after) ==> right_job_replies(
            after,
            job_stored(store, request),
            replies.drop_first(),
            now,
        )
    }
}

/// Of the tenant's jobs, the store keeps just the one that the checks write.
pub open spec fn keeps_one_job(store: JobStore) -> bool {
    &&& store.contains_key(job_ident())
    &&& forall|name: JobIdentModel| #[trigger]
        store.contains_key(name) && name.tenant == job_ident().tenant ==> name == job_ident()
}

/// What the store keeps in each state of the checks.
pub open spec fn jobs_kept(run: JobRun, store: JobStore) -> bool {
    match run {
        JobRun::ListNone => no_job_of(store, job_ident().tenant),
        JobRun::Create { .. } => no_job_of(store, job_ident().tenant),
        JobRun::GetCreated | JobRun::UpdateParams => {
            &&& keeps_one_job(store)
            &&& store[job_ident()].job_status matches Some(status) && status.job_state
                == BackgroundJobState::RUNNING
        },
        JobRun::GetParams | JobRun::UpdateStatus => {
            &&& keeps_one_job(store)
            &&& store[job_ident()].job_params == Some(hourly())
        },
        JobRun::GetStatus | JobRun::ListJobs => {
            &&& keeps_one_job(store)
            &&& store[job_ident()].job_params == Some(hourly())
            &&& store[job_ident()].job_status == Some(failed())
        },
        JobRun::Finished => true,
    }
}

proof fn lemma_right_job_reply_passes(
    run: JobRun,
    store: JobStore,
    reply: JobReply,
    now: Timestamp,
)
    requires
        jobs_kept(run, store),
        job_request(run) is Some,
        right_job_reply(store, job_request(run)->0, reply),
    ensures
        job_next(run, reply, now) is Ok,
        jobs_kept(job_next(run, reply, now)->Ok_0, job_stored(store, job_request(run)->0)),
{
    match run {
        JobRun::ListNone => {
            let entries = reply->List_0->Ok_0@;
            if entries.len() > 0 {
                let name = JobIdentModel { tenant: job_ident().tenant, name: entries[0].1@ };
                assert(store.contains_key(name));
            }
        },
        JobRun::ListJobs => {
            let entries = reply->List_0->Ok_0@;
            assert(store.contains_key(job_ident()));
            let i = choose|i: int|
                0 <= i < entries.len() && (#[trigger] entries[i]).1@ == job_ident().name;
            assert forall|j: int| 0 <= j < entries.len() implies (#[trigger] entries[j]).1@
                == job_ident().name by {
                let name = JobIdentModel { tenant: job_ident().tenant, name: entries[j].1@ };
                assert(store.contains_key(name));
            }
            if entries.len() > 1 {
                assert(entries[0].1@ != entries[1].1@);
            }
        },
        _ => {},
    }
}

/// An implementation that gives back what was written last passes the job checks: from a store
/// without jobs of the tenant, right replies fail no check, and eight of them end the checks.
pub proof fn lemma_right_job_replies_pass(
    run: JobRun,
    store: JobStore,
    replies: Seq<JobReply>,
    now: Timestamp,
)
    requires
        jobs_kept(run, store),
        right_job_replies(run, store, replies, now),
    ensures
        job_outcome(run, replies, now) is Ok,
        replies.len() == jobs_left(run) ==> job_outcome(run, replies, now) == Ok::<
            JobRun,
            CheckFailure,
        >(JobRun::Finished),
    decreases replies.len(),
{
    lemma_job_outcome_length(run, replies, now);
    if replies.len() > 0 {
        let request = job_request(run)->0;
        lemma_right_job_reply_passes(run, store, replies[0], now);
        let after = job_next(run, replies[0], now)->Ok_0;
        lemma_right_job_replies_pass(after, job_stored(store, request), replies.drop_first(), now);
    }
}

/// The two states of the task checks are the same but for when the task is created and expires.
pub open spec fn tasks_alike(a: TaskRun, b: TaskRun) -> bool {
    ||| a == b
    ||| a is UpdateStarted && b is UpdateStarted
    ||| a is GetStarted && b is GetStarted
    ||| a is UpdateDone && b is UpdateDone
}

/// The two requests are the same but for when the task is created and expires.
pub open spec fn task_requests_alike(
    a: Option<TaskRequestModel>,
    b: Option<TaskRequestModel>,
) -> bool {
    match (a, b) {
        (
            Some(TaskRequestModel::Update { task_name, task_info, .. }),
            Some(TaskRequestModel::Update { task_name: other_name, task_info: other_info, .. }),
        ) => {
            &&& task_name == other_name
            &&& task_info == TaskInfoModel { created_at: task_info.created_at, ..other_info }
        },
        _ => a == b,
    }
}

proof fn lemma_tasks_alike(
    a: TaskRun,
    b: TaskRun,
    replies: Seq<TaskReply>,
    a_now: Timestamp,
    b_now: Timestamp,
)
    requires
        tasks_alike(a, b),
        a_now.later(5) is Some,
        b_now.later(5) is Some,
    ensures
        match (task_outcome(a, replies, a_now), task_outcome(b, replies, b_now)) {
            (Ok(a_after), Ok(b_after)) => {
                &&& tasks_alike(a_after, b_after)
                &&& task_requests_alike(task_request(a_after), task_request(b_after))
            },
            (a_end, b_end) => a_end == b_end,
        },
    decreases replies.len(),
{
    if replies.len() > 0 {
        if let (Ok(a_after), Ok(b_after)) = (
            task_next(a, replies[0], a_now),
            task_next(b, replies[0], b_now),
        ) {
            lemma_tasks_alike(a_after, b_after, replies.drop_first(), a_now, b_now);
        }
    }
}

/// The clock decides nothing in the task checks, as long as the calendar has the time at which the
/// task expires: on the same replies, two readings lead to the same failure, or to states that
/// send the same request but for when the task is created and expires.
pub proof fn lemma_clock_in_task_checks(
    replies: Seq<TaskReply>,
    a_now: Timestamp,
    b_now: Timestamp,
)
    requires
        a_now.later(5) is Some,
        b_now.later(5) is Some,
    ensures
        match (
            task_outcome(TaskRun::ListNone, replies, a_now),
            task_outcome(TaskRun::ListNone, replies, b_now),
        ) {
            (Ok(a), Ok(b)) => {
                &&& tasks_alike(a, b)
                &&& task_requests_alike(task_request(a), task_request(b))
            },
            (a, b) => a == b,
        },
{
    lemma_tasks_alike(TaskRun::ListNone, TaskRun::ListNone, replies, a_now, b_now);
}

/// The two states of the job checks are the same but for when the job is created.
pub open spec fn jobs_alike(a: JobRun, b: JobRun) -> bool {
    a == b || (a is Create && b is Create)
}

/// The two requests are the same but for when the job is created.
pub open spec fn job_requests_alike(
    a: Option<JobRequestModel>,
    b: Option<JobRequestModel>,
) -> bool {
    match (a, b) {
        (
            Some(JobRequestModel::Create { if_not_exists, job_name, job_info }),
            Some(
                JobRequestModel::Create {
                    if_not_exists: other_flag,
                    job_name: other_name,
                    job_info: other_info,
                },
            ),
        ) => {
            &&& if_not_exists == other_flag
            &&& job_name == other_name
            &&& job_info == JobInfoModel { created_at: job_info.created_at, ..other_info }
        },
        _ => a == b,
    }
}

proof fn lemma_jobs_alike(
    a: JobRun,
    b: JobRun,
    replies: Seq<JobReply>,
    a_now: Timestamp,
    b_now: Timestamp,
)
    requires
        jobs_alike(a, b),
    ensures
        match (job_outcome(a, replies, a_now), job_outcome(b, replies, b_now)) {
            (Ok(a_after), Ok(b_after)) => {
                &&& jobs_alike(a_after, b_after)
                &&& job_requests_alike(job_request(a_after), job_request(b_after))
            },
            (a_end, b_end) => a_end == b_end,
        },
    decreases replies.len(),
{
    if replies.len() > 0 {
        if let (Ok(a_after), Ok(b_after)) = (
            job_next(a, replies[0], a_now),
            job_next(b, replies[0], b_now),
        ) {
            lemma_jobs_alike(a_after, b_after, replies.drop_first(), a_now, b_now);
        }
    }
}

/// The clock decides nothing in the job checks: on the same replies, two readings lead to the same
/// failure, or to states that send the same request but for when the job is created.
pub proof fn lemma_clock_in_job_checks(
    replies: Seq<JobReply>,
    a_now: Timestamp,
    b_now: Timestamp,
)
    ensures
        match (
            job_outcome(JobRun::ListNone, replies, a_now),
            job_outcome(JobRun::ListNone, replies, b_now),
        ) {
            (Ok(a), Ok(b)) => {
                &&& jobs_alike(a, b)
                &&& job_requests_alike(job_request(a), job_request(b))
            },
            (a, b) => a == b,
        },
{
    lemma_jobs_alike(JobRun::ListNone, JobRun::ListNone, replies, a_now, b_now);
}

/// Where the suite ends up on `events`, where the clock reads `task_now` when the task is created
/// and `job_now` when the job is.
pub open spec fn suite_outcome(
    run: SuiteRun,
    events: Seq<SuiteEvent>,
    task_now: Timestamp,
    job_now: Timestamp,
) -> Result<SuiteRun, CheckFailure>
    decreases events.len(),
{
    if events.len() == 0 {
        Ok(run)
    } else {
        let now = if run is Tasks {
            task_now
        } else {
            job_now
        };
        match suite_next(run, events[0], now) {
            Ok(after) => suite_outcome(after, events.drop_first(), task_now, job_now),
            Err(failure) => Err(failure),
        }
    }
}

/// The events of a suite in which the two instances of the API give these replies.
pub open spec fn suite_events(tasks: Seq<TaskReply>, jobs: Seq<JobReply>) -> Seq<SuiteEvent> {
    seq![SuiteEvent::Built] + (tasks.map_values(|reply: TaskReply| SuiteEvent::Task(reply)) + (seq![
        SuiteEvent::Built,
    ] + jobs.map_values(|reply: JobReply| SuiteEvent::Job(reply))))
}

proof fn lemma_suite_jobs(
    run: JobRun,
    replies: Seq<JobReply>,
    task_now: Timestamp,
    job_now: Timestamp,
)
    requires
        job_outcome(run, replies, job_now) == Ok::<JobRun, CheckFailure>(JobRun::Finished),
    ensures
        suite_outcome(
            after_jobs(run),
            replies.map_values(|reply: JobReply| SuiteEvent::Job(reply)),
            task_now,
            job_now,
        ) == Ok::<SuiteRun, CheckFailure>(SuiteRun::Finished),
    decreases replies.len(),
{
    let events = replies.map_values(|reply: JobReply| SuiteEvent::Job(reply));
    if replies.len() > 0 {
        assert(events[0] == SuiteEvent::Job(replies[0]));
        assert(events.drop_first() =~= replies.drop_first().map_values(
            |reply: JobReply| SuiteEvent::Job(reply),
        ));
        lemma_suite_jobs(
            job_next(run, replies[0], job_now)->Ok_0,
            replies.drop_first(),
            task_now,
            job_now,
        );
    }
}

proof fn lemma_suite_tasks(
    run: TaskRun,
    replies: Seq<TaskReply>,
    rest: Seq<SuiteEvent>,
    task_now: Timestamp,
    job_now: Timestamp,
)
    requires
        task_outcome(run, replies, task_now) == Ok::<TaskRun, CheckFailure>(TaskRun::Finished),
    ensures
        suite_outcome(
            after_tasks(run),
            replies.map_values(|reply: TaskReply| SuiteEvent::Task(reply)) + rest,
            task_now,
            job_now,
        ) == suite_outcome(SuiteRun::BuildForJobs, rest, task_now, job_now),
    decreases replies.len(),
{
    let events = replies.map_values(|reply: TaskReply| SuiteEvent::Task(reply));
    if replies.len() > 0 {
        assert((events + rest)[0] == SuiteEvent::Task(replies[0]));
        assert((events + rest).drop_first() =~= replies.drop_first().map_values(
            |reply: TaskReply| SuiteEvent::Task(reply),
        ) + rest);
        lemma_suite_tasks(
            task_next(run, replies[0], task_now)->Ok_0,
            replies.drop_first(),
            rest,
            task_now,
            job_now,
        );
    } else {
        assert(events + rest =~= rest);
    }
}

/// The replies of the job checks in a suite that is passed.
proof fn lemma_suite_jobs_passed(
    run: JobRun,
    events: Seq<SuiteEvent>,
    task_now: Timestamp,
    job_now: Timestamp,
) -> (replies: Seq<JobReply>)
    requires
        suite_outcome(after_jobs(run), events, task_now, job_now) == Ok::<SuiteRun, CheckFailure>(
            SuiteRun::Finished,
        ),
    ensures
        job_outcome(run, replies, job_now) == Ok::<JobRun, CheckFailure>(JobRun::Finished),
        events == replies.map_values(|reply: JobReply| SuiteEvent::Job(reply)),
    decreases events.len(),
{
    if events.len() == 0 {
        let replies = Seq::<JobReply>::empty();
        assert(events =~= replies.map_values(|reply: JobReply| SuiteEvent::Job(reply)));
        replies
    } else {
        assert(run !is Finished);
        let reply = events[0]->Job_0;
        let after = job_next(run, reply, job_now)->Ok_0;
        let later = lemma_suite_jobs_passed(after, events.drop_first(), task_now, job_now);
        let replies = seq![reply] + later;
        assert(replies.drop_first() =~= later);
        assert(events =~= replies.map_values(|reply: JobReply| SuiteEvent::Job(reply))) by {
            assert(events =~= seq![events[0]] + events.drop_first());
        }
        replies
    }
}

/// The replies of the task checks in a suite that is passed, and the events after them.
proof fn lemma_suite_tasks_passed(
    run: TaskRun,
    events: Seq<SuiteEvent>,
    task_now: Timestamp,
    job_now: Timestamp,
) -> (res: (Seq<TaskReply>, Seq<SuiteEvent>))
    requires
        suite_outcome(after_tasks(run), events, task_now, job_now) == Ok::<SuiteRun, CheckFailure>(
            SuiteRun::Finished,
        ),
    ensures
        task_outcome(run, res.0, task_now) == Ok::<TaskRun, CheckFailure>(TaskRun::Finished),
        suite_outcome(SuiteRun::BuildForJobs, res.1, task_now, job_now) == Ok::<
            SuiteRun,
            CheckFailure,
        >(SuiteRun::Finished),
        events == res.0.map_values(|reply: TaskReply| SuiteEvent::Task(reply)) + res.1,
    decreases events.len(),
{
    if run is Finished {
        let replies = Seq::<TaskReply>::empty();
        assert(events =~= replies.map_values(|reply: TaskReply| SuiteEvent::Task(reply)) + events);
        (replies, events)
    } else {
        let reply = events[0]->Task_0;
        let after = task_next(run, reply, task_now)->Ok_0;
        let (later, rest) = lemma_suite_tasks_passed(
            after,
            events.drop_first(),
            task_now,
            job_now,
        );
        let replies = seq![reply] + later;
        assert(replies.drop_first() =~= later);
        assert(events =~= replies.map_values(|reply: TaskReply| SuiteEvent::Task(reply)) + rest) by {
            assert(events =~= seq![events[0]] + events.drop_first());
        }
        (replies, rest)
    }
}

proof fn lemma_suite_passes(
    tasks: Seq<TaskReply>,
    jobs: Seq<JobReply>,
    task_now: Timestamp,
    job_now: Timestamp,
)
    requires
        task_outcome(TaskRun::ListNone, tasks, task_now) == Ok::<TaskRun, CheckFailure>(
            TaskRun::Finished,
        ),
        job_outcome(JobRun::ListNone, jobs, job_now) == Ok::<JobRun, CheckFailure>(
            JobRun::Finished,
        ),
    ensures
        suite_outcome(
            SuiteRun::BuildForTasks,
            suite_events(tasks, jobs),
            task_now,
            job_now,
        ) == Ok::<SuiteRun, CheckFailure>(SuiteRun::Finished),
{
    let job_events = jobs.map_values(|reply: JobReply| SuiteEvent::Job(reply));
    let rest = seq![SuiteEvent::Built] + job_events;
    let task_events = tasks.map_values(|reply: TaskReply| SuiteEvent::Task(reply));
    let events = suite_events(tasks, jobs);
    assert(events[0] == SuiteEvent::Built);
    assert(events.drop_first() =~= task_events + rest);
    lemma_suite_tasks(TaskRun::ListNone, tasks, rest, task_now, job_now);
    assert(rest[0] == SuiteEvent::Built);
    assert(rest.drop_first() =~= job_events);
    lemma_suite_jobs(JobRun::ListNone, jobs, task_now, job_now);
}

/// The suite is passed exactly by an API of which one fresh instance passes the task checks and
/// then another fresh instance passes the job checks, and only while the calendar has the time at
/// which the task expires.
pub proof fn lemma_suite_checks(
    events: Seq<SuiteEvent>,
    task_now: Timestamp,
    job_now: Timestamp,
)
    ensures
        suite_outcome(SuiteRun::BuildForTasks, events, task_now, job_now) == Ok::<
            SuiteRun,
            CheckFailure,
        >(SuiteRun::Finished) <==> {
            &&& task_now.later(5) is Some
            &&& exists|tasks: Seq<TaskReply>, jobs: Seq<JobReply>|
                events == #[trigger] suite_events(tasks, jobs) && passes_task_checks(tasks)
                    && passes_job_checks(jobs)
        },
{
    if suite_outcome(SuiteRun::BuildForTasks, events, task_now, job_now) == Ok::<
        SuiteRun,
        CheckFailure,
    >(SuiteRun::Finished) {
        let (tasks, rest) = lemma_suite_tasks_passed(
            TaskRun::ListNone,
            events.drop_first(),
            task_now,
            job_now,
        );
        let jobs = lemma_suite_jobs_passed(
            JobRun::ListNone,
            rest.drop_first(),
            task_now,
            job_now,
        );
        lemma_task_checks(tasks, task_now);
        lemma_job_checks(jobs, job_now);
        assert(events =~= seq![SuiteEvent::Built] + events.drop_first());
        assert(rest =~= seq![SuiteEvent::Built] + rest.drop_first());
        assert(events == suite_events(tasks, jobs));
    }
    if task_now.later(5) is Some && exists|tasks: Seq<TaskReply>, jobs: Seq<JobReply>|
        events == #[trigger] suite_events(tasks, jobs) && passes_task_checks(tasks)
            && passes_job_checks(jobs) {
        let (tasks, jobs) = choose|tasks: Seq<TaskReply>, jobs: Seq<JobReply>|
            events == #[trigger] suite_events(tasks, jobs) && passes_task_checks(tasks)
                && passes_job_checks(jobs);
        lemma_task_checks(tasks, task_now);
        lemma_job_checks(jobs, job_now);
        lemma_suite_passes(tasks, jobs, task_now, job_now);
    }
}

/// An implementation that gives back what was written last passes the whole suite: one instance
/// without tasks of the tenant gives six right replies, and another without its jobs gives eight.
/// The calendar must have the time at which the task expires.
pub proof fn lemma_right_replies_pass_suite(
    tasks: Seq<TaskReply>,
    jobs: Seq<JobReply>,
    task_store: TaskStore,
    job_store: JobStore,
    task_now: Timestamp,
    job_now: Timestamp,
)
    requires
        task_now.later(5) is Some,
        no_task_of(task_store, "tenant1"@),
        no_job_of(job_store, "tenant1"@),
        tasks.len() == 6,
        jobs.len() == 8,
        right_task_replies(TaskRun::ListNone, task_store, tasks, task_now),
        right_job_replies(JobRun::ListNone, job_store, jobs, job_now),
    ensures
        suite_outcome(
            SuiteRun::BuildForTasks,
            suite_events(tasks, jobs),
            task_now,
            job_now,
        ) == Ok::<SuiteRun, CheckFailure>(SuiteRun::Finished),
{
    lemma_right_task_replies_pass(TaskRun::ListNone, task_store, tasks, task_now);
    lemma_right_job_replies_pass(JobRun::ListNone, job_store, jobs, job_now);
    lemma_suite_passes(tasks, jobs, task_now, job_now);
}

/// The name is that of the one task that the checks write.
pub open spec fn is_the_task(name: TaskIdentModel) -> bool {
    name.tenant == "tenant1"@ && name.task_id == "uuid1"@
}

/// The record is of a task in `state` that was created at that time, with nothing else in it.
pub open spec fn is_bare_task(
    info: TaskInfoModel,
    state: BackgroundTaskState,
    created_at: Timestamp,
) -> bool {
    &&& info.task_state == state
    &&& info.created_at == created_at
    &&& info.task_type == BackgroundTaskType::COMPACTION
    &&& info.message.len() == 0
    &&& info.last_updated is None
    &&& info.compaction_task_stats is None
    &&& info.vacuum_stats is None
    &&& info.creator is None
}

/// What the task checks send. Every request is about the one task of the one tenant. The task is
/// written twice, with one time of creation and one time at which it expires: first as started and
/// then as done.
pub proof fn lemma_task_requests(run: TaskRun)
    ensures
        match run {
            TaskRun::ListNone | TaskRun::ListDone => {
                &&& task_request(run) matches Some(TaskRequestModel::List { tenant })
                &&& tenant == "tenant1"@
            },
            TaskRun::UpdateStarted { create_on, expire_at } => {
                &&& task_request(run) matches Some(
                    TaskRequestModel::Update { task_name, task_info, expire_at: sent },
                )
                &&& is_the_task(task_name)
                &&& is_bare_task(task_info, BackgroundTaskState::STARTED, create_on)
                &&& sent == expire_at
            },
            TaskRun::UpdateDone { create_on, expire_at } => {
                &&& task_request(run) matches Some(
                    TaskRequestModel::Update { task_name, task_info, expire_at: sent },
                )
                &&& is_the_task(task_name)
                &&& is_bare_task(task_info, BackgroundTaskState::DONE, create_on)
                &&& sent == expire_at
            },
            TaskRun::GetStarted { .. } | TaskRun::GetDone => {
                &&& task_request(run) matches Some(TaskRequestModel::Get { name })
                &&& is_the_task(name)
            },
            TaskRun::Finished => task_request(run) is None,
        },
{
}

/// The name is that of the one job that the checks write.
pub open spec fn is_the_job(name: JobIdentModel) -> bool {
    name.tenant == "tenant1"@ && name.name == "uuid1"@
}

/// What the job checks send. Every request is about the one job of the one tenant. The job is
/// created as running once, then told to run every hour, and then reported as failed.
pub proof fn lemma_job_requests(run: JobRun)
    ensures
        match run {
            JobRun::ListNone | JobRun::ListJobs => {
                &&& job_request(run) matches Some(JobRequestModel::List { tenant })
                &&& tenant == "tenant1"@
            },
            JobRun::Create { create_on } => {
                &&& job_request(run) matches Some(
                    JobRequestModel::Create { if_not_exists, job_name, job_info },
                )
                &&& if_not_exists
                &&& is_the_job(job_name)
                &&& job_info.created_at == create_on
                &&& job_info.task_type == BackgroundTaskType::COMPACTION
                &&& job_info.message.len() == 0
                &&& job_info.last_updated is None
                &&& job_info.creator is None
                &&& job_info.job_params matches Some(params)
                &&& params.job_type == BackgroundJobType::ONESHOT
                &&& params.scheduled_job_interval.secs == 0
                &&& params.scheduled_job_interval.nanos == 0
                &&& params.scheduled_job_cron.len() == 0
                &&& params.scheduled_job_timezone is None
                &&& job_info.job_status matches Some(status)
                &&& status.job_state == BackgroundJobState::RUNNING
                &&& status.last_task_id is None
                &&& status.last_task_run_at is None
                &&& status.next_task_scheduled_time is None
            },
            JobRun::GetCreated | JobRun::GetParams | JobRun::GetStatus => {
                &&& job_request(run) matches Some(JobRequestModel::Get { name })
                &&& is_the_job(name)
            },
            JobRun::UpdateParams => {
                &&& job_request(run) matches Some(
                    JobRequestModel::UpdateParams { job_name, params },
                )
                &&& is_the_job(job_name)
                &&& params.job_type == BackgroundJobType::INTERVAL
                &&& params.scheduled_job_interval.secs == 3600
                &&& params.scheduled_job_interval.nanos == 0
                &&& params.scheduled_job_cron.len() == 0
                &&& params.scheduled_job_timezone is None
            },
            JobRun::UpdateStatus => {
                &&& job_request(run) matches Some(
                    JobRequestModel::UpdateStatus { job_name, status },
                )
                &&& is_the_job(job_name)
                &&& status.job_state == BackgroundJobState::FAILED
                &&& status.last_task_id == Some("newid"@)
                &&& status.last_task_run_at is None
                &&& status.next_task_scheduled_time is None
            },
            JobRun::Finished => job_request(run) is None,
        },
{
}

/// The reply is of the kind that the task checks wait for.
pub open spec fn task_reply_fits(run: TaskRun, reply: TaskReply) -> bool {
    match run {
        TaskRun::ListNone | TaskRun::ListDone => reply is List,
        TaskRun::UpdateStarted { .. } | TaskRun::UpdateDone { .. } => reply is Update,
        TaskRun::GetStarted { .. } | TaskRun::GetDone => reply is Get,
        TaskRun::Finished => false,
    }
}

/// What each failure of the task checks means: it comes on the replies that show what it says, and
/// on no others.
pub proof fn lemma_task_failures(run: TaskRun, reply: TaskReply, now: Timestamp)
    requires
        now.valid(),
    ensures
        ({
            let next = task_next(run, reply, now);
            &&& next == Err::<TaskRun, CheckFailure>(CheckFailure::WrongReply)
                <==> !task_reply_fits(run, reply)
            &&& next == Err::<TaskRun, CheckFailure>(CheckFailure::CallFailed) <==> {
                &&& task_reply_fits(run, reply)
                &&& (reply is List && reply->List_0 is Err) || (reply is Get && reply->Get_0 is Err)
            }
            &&& next == Err::<TaskRun, CheckFailure>(CheckFailure::ListNotEmpty) <==> {
                &&& run is ListNone
                &&& reply matches TaskReply::List(Ok(entries))
                &&& entries@.len() > 0
            }
            &&& next == Err::<TaskRun, CheckFailure>(CheckFailure::ExpiryOutOfRange) <==> {
                &&& run is ListNone
                &&& now.secs + 5 > MAX_SECS
                &&& reply matches TaskReply::List(Ok(entries))
                &&& entries@.len() == 0
            }
            &&& next == Err::<TaskRun, CheckFailure>(CheckFailure::TaskInfoMissing) <==> {
                &&& run is GetStarted || run is GetDone
                &&& reply matches TaskReply::Get(Ok(None))
            }
            &&& next == Err::<TaskRun, CheckFailure>(CheckFailure::TaskNotStarted) <==> {
                &&& run is GetStarted
                &&& reply matches TaskReply::Get(Ok(Some(info)))
                &&& info.task_state != BackgroundTaskState::STARTED
            }
            &&& next == Err::<TaskRun, CheckFailure>(CheckFailure::TaskNotDone) <==> {
                ||| {
                    &&& run is GetDone
                    &&& reply matches TaskReply::Get(Ok(Some(info)))
                    &&& info.task_state != BackgroundTaskState::DONE
                }
                ||| {
                    &&& run is ListDone
                    &&& reply matches TaskReply::List(Ok(entries))
                    &&& entries@.len() == 1
                    &&& entries@[0].1@ == "uuid1"@
                    &&& entries@[0].2.task_state != BackgroundTaskState::DONE
                }
            }
            &&& next == Err::<TaskRun, CheckFailure>(CheckFailure::NotOneTask) <==> {
                &&& run is ListDone
                &&& reply matches TaskReply::List(Ok(entries))
                &&& entries@.len() != 1
            }
            &&& next == Err::<TaskRun, CheckFailure>(CheckFailure::WrongTaskName) <==> {
                &&& run is ListDone
                &&& reply matches TaskReply::List(Ok(entries))
                &&& entries@.len() == 1
                &&& entries@[0].1@ != "uuid1"@
            }
            &&& next matches Err(failure) ==> !is_job_failure(failure)
        }),
{
}

/// The failure is one of a job.
pub open spec fn is_job_failure(failure: CheckFailure) -> bool {
    match failure {
        CheckFailure::JobStatusMissing | CheckFailure::JobParamsMissing => true,
        CheckFailure::WrongJobState | CheckFailure::WrongJobType => true,
        CheckFailure::WrongJobInterval | CheckFailure::WrongLastTask => true,
        CheckFailure::NotOneJob | CheckFailure::WrongJobName => true,
        _ => false,
    }
}

/// Where the task checks go when a reply passes: to the next check, with the time of creation and
/// the time at which the task expires as they were. These are fixed once, when the first list is
/// empty: the task is created at the time that the clock reads, and expires five seconds later, in
/// 64 bits without a sign.
pub proof fn lemma_task_states(run: TaskRun, reply: TaskReply, now: Timestamp)
    requires
        now.valid(),
        task_next(run, reply, now) is Ok,
    ensures
        ({
            let after = task_next(run, reply, now)->Ok_0;
            match run {
                TaskRun::ListNone => {
                    &&& after matches TaskRun::UpdateStarted { create_on, expire_at }
                    &&& create_on == now
                    &&& now.secs >= -5 ==> expire_at == now.secs + 5
                    &&& now.secs < -5 ==> expire_at == now.secs + 5 + 0x1_0000_0000_0000_0000
                },
                TaskRun::UpdateStarted { create_on, expire_at } => {
                    &&& after matches TaskRun::GetStarted { create_on: c, expire_at: e }
                    &&& c == create_on && e == expire_at
                },
                TaskRun::GetStarted { create_on, expire_at } => {
                    &&& after matches TaskRun::UpdateDone { create_on: c, expire_at: e }
                    &&& c == create_on && e == expire_at
                },
                TaskRun::UpdateDone { .. } => after is GetDone,
                TaskRun::GetDone => after is ListDone,
                TaskRun::ListDone => after is Finished,
                TaskRun::Finished => false,
            }
        }),
{
}

/// The reply is of the kind that the job checks wait for.
pub open spec fn job_reply_fits(run: JobRun, reply: JobReply) -> bool {
    match run {
        JobRun::ListNone | JobRun::ListJobs => reply is List,
        JobRun::Create { .. } => reply is Create,
        JobRun::GetCreated | JobRun::GetParams | JobRun::GetStatus => reply is Get,
        JobRun::UpdateParams => reply is UpdateParams,
        JobRun::UpdateStatus => reply is UpdateStatus,
        JobRun::Finished => false,
    }
}

/// The job that the reply shows in a state of the checks in which one is looked at: the job that
/// was read, or the only one that is listed, where it has the right name.
pub open spec fn job_shown(run: JobRun, reply: JobReply) -> Option<BackgroundJobInfo> {
    match reply {
        JobReply::Get(Ok(info)) => if run is GetCreated || run is GetParams || run is GetStatus {
            Some(info)
        } else {
            None
        },
        JobReply::List(Ok(entries)) => if run is ListJobs && entries@.len() == 1
            && entries@[0].1@ == "uuid1"@ {
            Some(entries@[0].2)
        } else {
            None
        },
        _ => None,
    }
}

/// The status of the job is looked at.
pub open spec fn looks_at_status(run: JobRun) -> bool {
    run is GetCreated || run is GetStatus || run is ListJobs
}

/// The state in which the job should be where its status is looked at.
pub open spec fn state_wanted(run: JobRun) -> BackgroundJobState {
    if run is GetCreated {
        BackgroundJobState::RUNNING
    } else {
        BackgroundJobState::FAILED
    }
}

/// What each failure of the job checks means: it comes on the replies that show what it says, and
/// on no others.
pub proof fn lemma_job_failures(run: JobRun, reply: JobReply, now: Timestamp)
    ensures
        ({
            let next = job_next(run, reply, now);
            let shown = job_shown(run, reply);
            &&& next == Err::<JobRun, CheckFailure>(CheckFailure::WrongReply) <==> !job_reply_fits(
                run,
                reply,
            )
            &&& next == Err::<JobRun, CheckFailure>(CheckFailure::CallFailed) <==> {
                &&& job_reply_fits(run, reply)
                &&& (reply is List && reply->List_0 is Err) || (reply is Get && reply->Get_0 is Err)
            }
            &&& next == Err::<JobRun, CheckFailure>(CheckFailure::ListNotEmpty) <==> {
                &&& run is ListNone
                &&& reply matches JobReply::List(Ok(entries))
                &&& entries@.len() > 0
            }
            &&& next == Err::<JobRun, CheckFailure>(CheckFailure::NotOneJob) <==> {
                &&& run is ListJobs
                &&& reply matches JobReply::List(Ok(entries))
                &&& entries@.len() != 1
            }
            &&& next == Err::<JobRun, CheckFailure>(CheckFailure::WrongJobName) <==> {
                &&& run is ListJobs
                &&& reply matches JobReply::List(Ok(entries))
                &&& entries@.len() == 1
                &&& entries@[0].1@ != "uuid1"@
            }
            &&& next == Err::<JobRun, CheckFailure>(CheckFailure::JobStatusMissing) <==> {
                &&& looks_at_status(run)
                &&& shown matches Some(info)
                &&& info.job_status is None
            }
            &&& next == Err::<JobRun, CheckFailure>(CheckFailure::WrongJobState) <==> {
                &&& looks_at_status(run)
                &&& shown matches Some(info)
                &&& info.job_status matches Some(status)
                &&& status.job_state != state_wanted(run)
            }
            &&& next == Err::<JobRun, CheckFailure>(CheckFailure::WrongLastTask) <==> {
                &&& run is GetStatus
                &&& shown matches Some(info)
                &&& info.job_status matches Some(status)
                &&& status.job_state == BackgroundJobState::FAILED
                &&& !(status.last_task_id matches Some(id) && id@ == "newid"@)
            }
            &&& next == Err::<JobRun, CheckFailure>(CheckFailure::JobParamsMissing) <==> {
                &&& shown matches Some(info)
                &&& info.job_params is None
                &&& run is GetParams || (run is ListJobs && has_state(
                    info,
                    BackgroundJobState::FAILED,
                ))
            }
            &&& next == Err::<JobRun, CheckFailure>(CheckFailure::WrongJobType) <==> {
                &&& shown matches Some(info)
                &&& info.job_params matches Some(params)
                &&& params.job_type != BackgroundJobType::INTERVAL
                &&& run is GetParams || (run is ListJobs && has_state(
                    info,
                    BackgroundJobState::FAILED,
                ))
            }
            &&& next == Err::<JobRun, CheckFailure>(CheckFailure::WrongJobInterval) <==> {
                &&& run is GetParams
                &&& shown matches Some(info)
                &&& info.job_params matches Some(params)
                &&& params.job_type == BackgroundJobType::INTERVAL
                &&& params.scheduled_job_interval.secs != 3600
                    || params.scheduled_job_interval.nanos != 0
            }
            &&& next matches Err(failure) ==> !is_task_failure(failure)
        }),
{
}

/// The failure is one of a task.
pub open spec fn is_task_failure(failure: CheckFailure) -> bool {
    match failure {
        CheckFailure::ExpiryOutOfRange | CheckFailure::TaskInfoMissing => true,
        CheckFailure::TaskNotStarted | CheckFailure::TaskNotDone => true,
        CheckFailure::NotOneTask | CheckFailure::WrongTaskName => true,
        _ => false,
    }
}

/// Where the job checks go when a reply passes: to the next check. When the first list is empty,
/// the job is created at the time that the clock reads.
pub proof fn lemma_job_states(run: JobRun, reply: JobReply, now: Timestamp)
    requires
        job_next(run, reply, now) is Ok,
    ensures
        ({
            let after = job_next(run, reply, now)->Ok_0;
            match run {
                JobRun::ListNone => after matches JobRun::Create { create_on } && create_on == now,
                JobRun::Create { .. } => after is GetCreated,
                JobRun::GetCreated => after is UpdateParams,
                JobRun::UpdateParams => after is GetParams,
                JobRun::GetParams => after is UpdateStatus,
                JobRun::UpdateStatus => after is GetStatus,
                JobRun::GetStatus => after is ListJobs,
                JobRun::ListJobs => after is Finished,
                JobRun::Finished => false,
            }
        }),
{
}

/// The suite goes by the task checks until they are finished, then by the job checks until they
/// are, each on an instance that was just built. It fails where they fail, with their failure, and
/// refuses what it did not wait for.
pub proof fn lemma_suite_steps(
    tasks: TaskRun,
    jobs: JobRun,
    task_reply: TaskReply,
    job_reply: JobReply,
    now: Timestamp,
)
    ensures
        ({
            let in_tasks = SuiteRun::Tasks(tasks);
            let in_jobs = SuiteRun::Jobs(jobs);
            let built = SuiteEvent::Built;
            let of_task = SuiteEvent::Task(task_reply);
            let of_job = SuiteEvent::Job(job_reply);
            let refused = Err::<SuiteRun, CheckFailure>(CheckFailure::WrongReply);
            &&& suite_next(SuiteRun::BuildForTasks, built, now) == Ok::<SuiteRun, CheckFailure>(
                SuiteRun::Tasks(TaskRun::ListNone),
            )
            &&& suite_next(SuiteRun::BuildForJobs, built, now) == Ok::<SuiteRun, CheckFailure>(
                SuiteRun::Jobs(JobRun::ListNone),
            )
            &&& match task_next(tasks, task_reply, now) {
                Ok(TaskRun::Finished) => suite_next(in_tasks, of_task, now) == Ok::<
                    SuiteRun,
                    CheckFailure,
                >(SuiteRun::BuildForJobs),
                Ok(after) => suite_next(in_tasks, of_task, now) == Ok::<SuiteRun, CheckFailure>(
                    SuiteRun::Tasks(after),
                ),
                Err(failure) => suite_next(in_tasks, of_task, now) == Err::<SuiteRun, CheckFailure>(
                    failure,
                ),
            }
            &&& match job_next(jobs, job_reply, now) {
                Ok(JobRun::Finished) => suite_next(in_jobs, of_job, now) == Ok::<
                    SuiteRun,
                    CheckFailure,
                >(SuiteRun::Finished),
                Ok(after) => suite_next(in_jobs, of_job, now) == Ok::<SuiteRun, CheckFailure>(
                    SuiteRun::Jobs(after),
                ),
                Err(failure) => suite_next(in_jobs, of_job, now) == Err::<SuiteRun, CheckFailure>(
                    failure,
                ),
            }
            &&& suite_next(SuiteRun::BuildForTasks, of_task, now) == refused
            &&& suite_next(SuiteRun::BuildForTasks, of_job, now) == refused
            &&& suite_next(in_tasks, built, now) == refused
            &&& suite_next(in_tasks, of_job, now) == refused
            &&& suite_next(SuiteRun::BuildForJobs, of_task, now) == refused
            &&& suite_next(SuiteRun::BuildForJobs, of_job, now) == refused
            &&& suite_next(in_jobs, built, now) == refused
            &&& suite_next(in_jobs, of_task, now) == refused
            &&& suite_next(SuiteRun::Finished, built, now) == refused
            &&& suite_next(SuiteRun::Finished, of_task, now) == refused
            &&& suite_next(SuiteRun::Finished, of_job, now) == refused
        }),
{
}

/// The expiry of a task is five seconds after its creation, in 64 bits without a sign, and there is
/// none exactly where the calendar ends before.
pub proof fn lemma_expiry(create_on: Timestamp)
    requires
        create_on.valid(),
    ensures
        expiry(create_on) is None <==> create_on.secs + 5 > MAX_SECS,
        expiry(create_on) matches Some(expire_at) ==> {
            &&& create_on.secs >= -5 ==> expire_at - create_on.secs == 5
            &&& create_on.secs < -5 ==> expire_at - create_on.secs == 5 + 0x1_0000_0000_0000_0000
        },
{
}

} // verus!
