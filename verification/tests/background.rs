use chrono::{DateTime, Utc};
use databend_ops::background::{
    new_background_job, new_background_task, ApiError, BackgroundJobInfo, BackgroundJobParams,
    BackgroundJobState, BackgroundJobStatus, BackgroundJobType, BackgroundTaskInfo,
    BackgroundTaskState, BackgroundTaskType, Interval, JobReply, JobRequest, TaskReply,
    TaskRequest,
};
use databend_ops::check::CheckFailure;
use databend_ops::job_run::JobRun;
use databend_ops::suite::{BackgroundApiTestSuite, SuiteAction, SuiteEvent, SuiteRun};
use databend_ops::task_run::{expire_at, TaskRun};
use databend_ops::timestamp::{Timestamp, MAX_SECS, MIN_SECS};

const NOON: Timestamp = Timestamp { secs: 1_690_000_000, nanos: 250 };

fn error() -> ApiError {
    ApiError { message: "unavailable".to_string() }
}

fn task(state: BackgroundTaskState) -> BackgroundTaskInfo {
    new_background_task(state, NOON)
}

fn one_task(id: &str, state: BackgroundTaskState) -> TaskReply {
    TaskReply::List(Ok(vec![(1, id.to_string(), task(state))]))
}

fn job(
    state: BackgroundJobState,
    last: Option<&str>,
    job_type: BackgroundJobType,
    secs: u64,
) -> BackgroundJobInfo {
    let mut info = new_background_job(state, NOON);
    info.job_params = Some(BackgroundJobParams {
        job_type,
        scheduled_job_interval: Interval { secs, nanos: 0 },
        scheduled_job_cron: String::new(),
        scheduled_job_timezone: None,
    });
    info.job_status = Some(BackgroundJobStatus {
        job_state: state,
        last_task_id: last.map(|id| id.to_string()),
        last_task_run_at: None,
        next_task_scheduled_time: None,
    });
    info
}

fn done_job() -> BackgroundJobInfo {
    job(BackgroundJobState::FAILED, Some("newid"), BackgroundJobType::INTERVAL, 3600)
}

fn writing() -> (Timestamp, u64) {
    (NOON, 1_690_000_005)
}

#[test]
fn new_task_has_its_state_and_nothing_else() {
    let info = new_background_task(BackgroundTaskState::STARTED, NOON);
    assert_eq!(info.task_state, BackgroundTaskState::STARTED);
    assert_eq!(info.created_at, NOON);
    assert_eq!(info.task_type, BackgroundTaskType::default());
    assert_eq!(info.task_type, BackgroundTaskType::COMPACTION);
    assert_eq!(info.message, "");
    assert_eq!(info.last_updated, None);
    assert_eq!(info.compaction_task_stats, None);
    assert_eq!(info.vacuum_stats, None);
    assert_eq!(info.creator, None);
}

#[test]
fn new_job_runs_once() {
    let info = new_background_job(BackgroundJobState::RUNNING, NOON);
    let params = info.job_params.unwrap();
    assert_eq!(params.job_type, BackgroundJobType::ONESHOT);
    assert_eq!(params.scheduled_job_interval, Interval { secs: 0, nanos: 0 });
    assert_eq!(params.scheduled_job_cron, "");
    assert_eq!(params.scheduled_job_timezone, None);
    let status = info.job_status.unwrap();
    assert_eq!(status.job_state, BackgroundJobState::RUNNING);
    assert_eq!(status.last_task_id, None);
    assert_eq!(status.last_task_run_at, None);
    assert_eq!(status.next_task_scheduled_time, None);
    assert_eq!(info.created_at, NOON);
    assert_eq!(info.message, "");
}

#[test]
fn calendar_is_the_one_of_chrono() {
    assert_eq!(MIN_SECS, DateTime::<Utc>::MIN_UTC.timestamp());
    assert_eq!(MAX_SECS, DateTime::<Utc>::MAX_UTC.timestamp());
}

#[test]
fn seconds_are_added_within_the_calendar() {
    assert_eq!(
        NOON.checked_add_seconds(5),
        Some(Timestamp { secs: 1_690_000_005, nanos: 250 })
    );
    assert_eq!(
        NOON.checked_add_seconds(-1_690_000_001),
        Some(Timestamp { secs: -1, nanos: 250 })
    );
    let last = Timestamp { secs: MAX_SECS, nanos: 999_999_999 };
    let first = Timestamp { secs: MIN_SECS, nanos: 0 };
    assert_eq!(last.checked_add_seconds(0), Some(last));
    assert_eq!(last.checked_add_seconds(1), None);
    assert_eq!(first.checked_add_seconds(-1), None);
    assert_eq!(
        first.checked_add_seconds(MAX_SECS - MIN_SECS),
        Some(Timestamp { secs: MAX_SECS, nanos: 0 })
    );
    assert_eq!(
        last.checked_add_seconds(MIN_SECS - MAX_SECS),
        Some(Timestamp { secs: MIN_SECS, nanos: 999_999_999 })
    );
    assert_eq!(last.checked_add_seconds(i64::MAX), None);
    assert_eq!(first.checked_add_seconds(i64::MIN), None);
}

#[test]
fn tasks_expire_after_five_seconds() {
    assert_eq!(expire_at(NOON), Some(1_690_000_005));
    assert_eq!(expire_at(Timestamp { secs: -6, nanos: 0 }), Some(u64::MAX));
    assert_eq!(expire_at(Timestamp { secs: -5, nanos: 0 }), Some(0));
    assert_eq!(
        expire_at(Timestamp { secs: MAX_SECS - 5, nanos: 0 }),
        Some(8_210_266_876_799)
    );
    assert_eq!(expire_at(Timestamp { secs: MAX_SECS - 4, nanos: 0 }), None);
}

#[test]
fn task_is_created_at_the_present_time() {
    let before = Utc::now().timestamp();
    let run = BackgroundApiTestSuite {}.update_background_tasks();
    let next = run.advance(&TaskReply::List(Ok(vec![])));
    let after = Utc::now().timestamp();
    match next {
        Ok(TaskRun::UpdateStarted { create_on, expire_at }) => {
            assert!(before <= create_on.secs && create_on.secs <= after);
            assert!(create_on.nanos < 1_000_000_000);
            assert_eq!(expire_at, create_on.secs as u64 + 5);
        }
        other => panic!("unexpected state {:?}", other),
    }
}

#[test]
fn job_is_created_at_the_present_time() {
    let before = Utc::now().timestamp();
    let run = BackgroundApiTestSuite {}.update_background_jobs();
    let next = run.advance(&JobReply::List(Ok(vec![])));
    let after = Utc::now().timestamp();
    match next {
        Ok(JobRun::Create { create_on }) => {
            assert!(before <= create_on.secs && create_on.secs <= after);
        }
        other => panic!("unexpected state {:?}", other),
    }
}

#[test]
fn task_requests_follow_the_states() {
    let (create_on, expire_at) = writing();
    match TaskRun::ListNone.request() {
        Some(TaskRequest::List { tenant }) => assert_eq!(tenant, "tenant1"),
        other => panic!("unexpected request {:?}", other),
    }
    for (run, state) in [
        (TaskRun::UpdateStarted { create_on, expire_at }, BackgroundTaskState::STARTED),
        (TaskRun::UpdateDone { create_on, expire_at }, BackgroundTaskState::DONE),
    ] {
        match run.request() {
            Some(TaskRequest::Update { task_name, task_info, expire_at }) => {
                assert_eq!(task_name.tenant, "tenant1");
                assert_eq!(task_name.task_id, "uuid1");
                assert_eq!(task_info.task_state, state);
                assert_eq!(task_info.created_at, NOON);
                assert_eq!(expire_at, 1_690_000_005);
            }
            other => panic!("unexpected request {:?}", other),
        }
    }
    for run in [TaskRun::GetStarted { create_on, expire_at }, TaskRun::GetDone] {
        match run.request() {
            Some(TaskRequest::Get { name }) => {
                assert_eq!(name.tenant, "tenant1");
                assert_eq!(name.task_id, "uuid1");
            }
            other => panic!("unexpected request {:?}", other),
        }
    }
    assert!(matches!(TaskRun::ListDone.request(), Some(TaskRequest::List { .. })));
    assert!(TaskRun::Finished.request().is_none());
}

#[test]
fn job_requests_follow_the_states() {
    assert!(matches!(JobRun::ListNone.request(), Some(JobRequest::List { .. })));
    match (JobRun::Create { create_on: NOON }).request() {
        Some(JobRequest::Create { if_not_exists, job_name, job_info }) => {
            assert!(if_not_exists);
            assert_eq!(job_name.tenant, "tenant1");
            assert_eq!(job_name.name, "uuid1");
            assert_eq!(job_info.job_status.unwrap().job_state, BackgroundJobState::RUNNING);
            assert_eq!(job_info.created_at, NOON);
        }
        other => panic!("unexpected request {:?}", other),
    }
    match JobRun::UpdateParams.request() {
        Some(JobRequest::UpdateParams { job_name, params }) => {
            assert_eq!(job_name.name, "uuid1");
            assert_eq!(params.job_type, BackgroundJobType::INTERVAL);
            assert_eq!(params.scheduled_job_interval, Interval { secs: 3600, nanos: 0 });
            assert_eq!(params.scheduled_job_cron, "");
            assert_eq!(params.scheduled_job_timezone, None);
        }
        other => panic!("unexpected request {:?}", other),
    }
    match JobRun::UpdateStatus.request() {
        Some(JobRequest::UpdateStatus { job_name, status }) => {
            assert_eq!(job_name.name, "uuid1");
            assert_eq!(status.job_state, BackgroundJobState::FAILED);
            assert_eq!(status.last_task_id, Some("newid".to_string()));
        }
        other => panic!("unexpected request {:?}", other),
    }
    for run in [JobRun::GetCreated, JobRun::GetParams, JobRun::GetStatus] {
        assert!(matches!(run.request(), Some(JobRequest::Get { .. })));
    }
    assert!(matches!(JobRun::ListJobs.request(), Some(JobRequest::List { .. })));
    assert!(JobRun::Finished.request().is_none());
}

#[test]
fn first_task_list_must_be_empty() {
    let run = TaskRun::ListNone;
    let (create_on, expire_at) = writing();
    assert_eq!(
        run.advance_at(&TaskReply::List(Ok(vec![])), NOON),
        Ok(TaskRun::UpdateStarted { create_on, expire_at })
    );
    assert_eq!(
        run.advance_at(&one_task("uuid1", BackgroundTaskState::DONE), NOON),
        Err(CheckFailure::ListNotEmpty)
    );
    assert_eq!(
        run.advance_at(&TaskReply::List(Err(error())), NOON),
        Err(CheckFailure::CallFailed)
    );
    assert_eq!(
        run.advance_at(&TaskReply::Update(Ok(())), NOON),
        Err(CheckFailure::WrongReply)
    );
    assert_eq!(
        run.advance_at(
            &TaskReply::List(Ok(vec![])),
            Timestamp { secs: MAX_SECS, nanos: 0 }
        ),
        Err(CheckFailure::ExpiryOutOfRange)
    );
}

#[test]
fn answers_to_writes_are_not_judged() {
    let (create_on, expire_at) = writing();
    for reply in [TaskReply::Update(Ok(())), TaskReply::Update(Err(error()))] {
        assert_eq!(
            TaskRun::UpdateStarted { create_on, expire_at }.advance(&reply),
            Ok(TaskRun::GetStarted { create_on, expire_at })
        );
        assert_eq!(
            TaskRun::UpdateDone { create_on, expire_at }.advance(&reply),
            Ok(TaskRun::GetDone)
        );
    }
    for failed in [false, true] {
        let answer = || if failed { Err(error()) } else { Ok(()) };
        assert_eq!(
            JobRun::Create { create_on: NOON }.advance(&JobReply::Create(answer())),
            Ok(JobRun::GetCreated)
        );
        assert_eq!(
            JobRun::UpdateParams.advance(&JobReply::UpdateParams(answer())),
            Ok(JobRun::GetParams)
        );
        assert_eq!(
            JobRun::UpdateStatus.advance(&JobReply::UpdateStatus(answer())),
            Ok(JobRun::GetStatus)
        );
    }
}

#[test]
fn task_reads_must_give_back_the_state() {
    let (create_on, expire_at) = writing();
    let started = TaskRun::GetStarted { create_on, expire_at };
    let read = |state| TaskReply::Get(Ok(Some(task(state))));
    assert_eq!(
        started.advance(&read(BackgroundTaskState::STARTED)),
        Ok(TaskRun::UpdateDone { create_on, expire_at })
    );
    assert_eq!(
        started.advance(&read(BackgroundTaskState::DONE)),
        Err(CheckFailure::TaskNotStarted)
    );
    assert_eq!(
        TaskRun::GetDone.advance(&read(BackgroundTaskState::DONE)),
        Ok(TaskRun::ListDone)
    );
    assert_eq!(
        TaskRun::GetDone.advance(&read(BackgroundTaskState::STARTED)),
        Err(CheckFailure::TaskNotDone)
    );
    assert_eq!(
        TaskRun::GetDone.advance(&TaskReply::Get(Ok(None))),
        Err(CheckFailure::TaskInfoMissing)
    );
    assert_eq!(
        TaskRun::GetDone.advance(&TaskReply::Get(Err(error()))),
        Err(CheckFailure::CallFailed)
    );
}

#[test]
fn last_task_list_must_hold_the_task() {
    let run = TaskRun::ListDone;
    assert_eq!(
        run.advance(&one_task("uuid1", BackgroundTaskState::DONE)),
        Ok(TaskRun::Finished)
    );
    assert_eq!(
        run.advance(&one_task("uuid2", BackgroundTaskState::DONE)),
        Err(CheckFailure::WrongTaskName)
    );
    assert_eq!(
        run.advance(&one_task("uuid1", BackgroundTaskState::STARTED)),
        Err(CheckFailure::TaskNotDone)
    );
    assert_eq!(run.advance(&TaskReply::List(Ok(vec![]))), Err(CheckFailure::NotOneTask));
    let two = vec![
        (1, "uuid1".to_string(), task(BackgroundTaskState::DONE)),
        (2, "uuid1".to_string(), task(BackgroundTaskState::DONE)),
    ];
    assert_eq!(run.advance(&TaskReply::List(Ok(two))), Err(CheckFailure::NotOneTask));
    assert_eq!(
        TaskRun::Finished.advance(&TaskReply::List(Ok(vec![]))),
        Err(CheckFailure::WrongReply)
    );
}

#[test]
fn first_job_list_must_be_empty() {
    let run = JobRun::ListNone;
    assert_eq!(
        run.advance_at(&JobReply::List(Ok(vec![])), NOON),
        Ok(JobRun::Create { create_on: NOON })
    );
    assert_eq!(
        run.advance_at(&JobReply::List(Ok(vec![(1, "a".to_string(), done_job())])), NOON),
        Err(CheckFailure::ListNotEmpty)
    );
    assert_eq!(
        run.advance_at(&JobReply::List(Err(error())), NOON),
        Err(CheckFailure::CallFailed)
    );
}

#[test]
fn created_job_must_run() {
    let run = JobRun::GetCreated;
    let running = new_background_job(BackgroundJobState::RUNNING, NOON);
    assert_eq!(run.advance(&JobReply::Get(Ok(running))), Ok(JobRun::UpdateParams));
    assert_eq!(
        run.advance(&JobReply::Get(Ok(done_job()))),
        Err(CheckFailure::WrongJobState)
    );
    let mut bare = done_job();
    bare.job_status = None;
    assert_eq!(
        run.advance(&JobReply::Get(Ok(bare))),
        Err(CheckFailure::JobStatusMissing)
    );
    assert_eq!(run.advance(&JobReply::Get(Err(error()))), Err(CheckFailure::CallFailed));
    assert_eq!(run.advance(&JobReply::Create(Ok(()))), Err(CheckFailure::WrongReply));
}

#[test]
fn job_must_take_its_parameters() {
    let run = JobRun::GetParams;
    let read = |job_type, secs| {
        JobReply::Get(Ok(job(BackgroundJobState::RUNNING, None, job_type, secs)))
    };
    assert_eq!(
        run.advance(&read(BackgroundJobType::INTERVAL, 3600)),
        Ok(JobRun::UpdateStatus)
    );
    assert_eq!(
        run.advance(&read(BackgroundJobType::CRON, 3600)),
        Err(CheckFailure::WrongJobType)
    );
    assert_eq!(
        run.advance(&read(BackgroundJobType::INTERVAL, 3599)),
        Err(CheckFailure::WrongJobInterval)
    );
    let mut bare = done_job();
    bare.job_params = None;
    assert_eq!(
        run.advance(&JobReply::Get(Ok(bare))),
        Err(CheckFailure::JobParamsMissing)
    );
}

#[test]
fn job_must_take_its_status() {
    let run = JobRun::GetStatus;
    assert_eq!(run.advance(&JobReply::Get(Ok(done_job()))), Ok(JobRun::ListJobs));
    for last in [None, Some("oldid")] {
        let info = job(BackgroundJobState::FAILED, last, BackgroundJobType::INTERVAL, 3600);
        assert_eq!(
            run.advance(&JobReply::Get(Ok(info))),
            Err(CheckFailure::WrongLastTask)
        );
    }
    let suspended =
        job(BackgroundJobState::SUSPENDED, Some("newid"), BackgroundJobType::INTERVAL, 3600);
    assert_eq!(
        run.advance(&JobReply::Get(Ok(suspended))),
        Err(CheckFailure::WrongJobState)
    );
}

#[test]
fn last_job_list_must_hold_the_job() {
    let run = JobRun::ListJobs;
    let list = |name: &str, info| JobReply::List(Ok(vec![(3, name.to_string(), info)]));
    assert_eq!(run.advance(&list("uuid1", done_job())), Ok(JobRun::Finished));
    assert_eq!(run.advance(&list("other", done_job())), Err(CheckFailure::WrongJobName));
    assert_eq!(run.advance(&JobReply::List(Ok(vec![]))), Err(CheckFailure::NotOneJob));
    let mut bare = done_job();
    bare.job_params = None;
    assert_eq!(run.advance(&list("uuid1", bare)), Err(CheckFailure::JobParamsMissing));
    let fresh = new_background_job(BackgroundJobState::FAILED, NOON);
    assert_eq!(run.advance(&list("uuid1", fresh)), Err(CheckFailure::WrongJobType));
    let running = new_background_job(BackgroundJobState::RUNNING, NOON);
    assert_eq!(run.advance(&list("uuid1", running)), Err(CheckFailure::WrongJobState));
}

fn good_task_replies() -> Vec<TaskReply> {
    vec![
        TaskReply::List(Ok(vec![])),
        TaskReply::Update(Ok(())),
        TaskReply::Get(Ok(Some(task(BackgroundTaskState::STARTED)))),
        TaskReply::Update(Ok(())),
        TaskReply::Get(Ok(Some(task(BackgroundTaskState::DONE)))),
        one_task("uuid1", BackgroundTaskState::DONE),
    ]
}

fn good_job_replies() -> Vec<JobReply> {
    vec![
        JobReply::List(Ok(vec![])),
        JobReply::Create(Ok(())),
        JobReply::Get(Ok(new_background_job(BackgroundJobState::RUNNING, NOON))),
        JobReply::UpdateParams(Ok(())),
        JobReply::Get(Ok(done_job())),
        JobReply::UpdateStatus(Ok(())),
        JobReply::Get(Ok(done_job())),
        JobReply::List(Ok(vec![(3, "uuid1".to_string(), done_job())])),
    ]
}

#[test]
fn task_checks_need_an_expiry_in_the_calendar() {
    for (secs, end) in [
        (0, Ok(TaskRun::Finished)),
        (MAX_SECS - 5, Ok(TaskRun::Finished)),
        (MAX_SECS - 4, Err(CheckFailure::ExpiryOutOfRange)),
    ] {
        let mut run = Ok(TaskRun::ListNone);
        for reply in good_task_replies() {
            run = run.and_then(|run| run.advance_at(&reply, Timestamp { secs, nanos: 0 }));
        }
        assert_eq!(run, end);
    }
}

#[test]
fn clock_only_dates_the_task() {
    let later = Timestamp { secs: 1_700_000_000, nanos: 0 };
    let mut a = TaskRun::ListNone;
    let mut b = TaskRun::ListNone;
    for reply in good_task_replies() {
        a = a.advance_at(&reply, NOON).unwrap();
        b = b.advance_at(&reply, later).unwrap();
        match (a.request(), b.request()) {
            (
                Some(TaskRequest::Update { task_info, expire_at, .. }),
                Some(TaskRequest::Update { task_info: other, expire_at: other_expiry, .. }),
            ) => {
                assert_eq!(task_info.task_state, other.task_state);
                assert_eq!((task_info.created_at, expire_at), (NOON, 1_690_000_005));
                assert_eq!((other.created_at, other_expiry), (later, 1_700_000_005));
            }
            (first, second) => assert_eq!(format!("{:?}", first), format!("{:?}", second)),
        }
    }
    assert_eq!((a, b), (TaskRun::Finished, TaskRun::Finished));
}

#[test]
fn clock_only_dates_the_job() {
    let last = Timestamp { secs: MAX_SECS, nanos: 0 };
    let mut a = JobRun::ListNone;
    let mut b = JobRun::ListNone;
    for reply in good_job_replies() {
        a = a.advance_at(&reply, NOON).unwrap();
        b = b.advance_at(&reply, last).unwrap();
        match (a.request(), b.request()) {
            (
                Some(JobRequest::Create { job_info, .. }),
                Some(JobRequest::Create { job_info: other, .. }),
            ) => {
                assert_eq!(job_info.created_at, NOON);
                assert_eq!(other.created_at, last);
            }
            (first, second) => assert_eq!(format!("{:?}", first), format!("{:?}", second)),
        }
    }
    assert_eq!((a, b), (JobRun::Finished, JobRun::Finished));
}

#[test]
fn failures_say_what_was_expected() {
    assert_eq!(CheckFailure::TaskNotStarted.message(), Some("first state is started"));
    assert_eq!(CheckFailure::TaskNotDone.message(), Some("first state is done"));
    assert_eq!(CheckFailure::NotOneTask.message(), Some("there is one task"));
    assert_eq!(CheckFailure::WrongTaskName.message(), Some("task name"));
    assert_eq!(CheckFailure::WrongJobState.message(), Some("first state is started"));
    assert_eq!(CheckFailure::WrongJobType.message(), Some("first state is started"));
    assert_eq!(CheckFailure::WrongJobName.message(), Some("expect same ident name"));
    assert_eq!(CheckFailure::WrongJobInterval.message(), None);
    assert_eq!(CheckFailure::CallFailed.message(), None);
}

/// A small store that gives back what was written last.
struct Store {
    tasks: Vec<(String, String, BackgroundTaskState)>,
    job: Option<BackgroundJobInfo>,
    forget_status: bool,
}

impl Store {
    fn answer(&mut self, action: SuiteAction) -> SuiteEvent {
        match action {
            SuiteAction::Build => {
                self.tasks.clear();
                self.job = None;
                SuiteEvent::Built
            }
            SuiteAction::Task(TaskRequest::List { tenant }) => {
                SuiteEvent::Task(TaskReply::List(Ok(self
                    .tasks
                    .iter()
                    .filter(|(owner, _, _)| *owner == tenant)
                    .map(|(_, id, state)| (0, id.clone(), task(*state)))
                    .collect())))
            }
            SuiteAction::Task(TaskRequest::Update { task_name, task_info, .. }) => {
                self.tasks.retain(|(tenant, id, _)| {
                    *tenant != task_name.tenant || *id != task_name.task_id
                });
                self.tasks
                    .push((task_name.tenant, task_name.task_id, task_info.task_state));
                SuiteEvent::Task(TaskReply::Update(Ok(())))
            }
            SuiteAction::Task(TaskRequest::Get { name }) => {
                SuiteEvent::Task(TaskReply::Get(Ok(self
                    .tasks
                    .iter()
                    .find(|(tenant, id, _)| *tenant == name.tenant && *id == name.task_id)
                    .map(|(_, _, state)| task(*state)))))
            }
            SuiteAction::Job(JobRequest::List { .. }) => SuiteEvent::Job(JobReply::List(Ok(self
                .job
                .iter()
                .map(|info| (0, "uuid1".to_string(), copy(info)))
                .collect()))),
            SuiteAction::Job(JobRequest::Create { job_info, .. }) => {
                self.job = Some(job_info);
                SuiteEvent::Job(JobReply::Create(Ok(())))
            }
            SuiteAction::Job(JobRequest::Get { .. }) => SuiteEvent::Job(JobReply::Get(
                match &self.job {
                    Some(info) => Ok(copy(info)),
                    None => Err(error()),
                },
            )),
            SuiteAction::Job(JobRequest::UpdateParams { params, .. }) => {
                if let Some(info) = &mut self.job {
                    info.job_params = Some(params);
                }
                SuiteEvent::Job(JobReply::UpdateParams(Ok(())))
            }
            SuiteAction::Job(JobRequest::UpdateStatus { status, .. }) => {
                if let (Some(info), false) = (&mut self.job, self.forget_status) {
                    info.job_status = Some(status);
                }
                SuiteEvent::Job(JobReply::UpdateStatus(Ok(())))
            }
            SuiteAction::Finish => panic!("nothing is left to answer"),
        }
    }
}

fn copy(info: &BackgroundJobInfo) -> BackgroundJobInfo {
    let mut twin = new_background_job(BackgroundJobState::RUNNING, info.created_at);
    twin.job_params = info.job_params.as_ref().map(|params| BackgroundJobParams {
        job_type: params.job_type,
        scheduled_job_interval: params.scheduled_job_interval,
        scheduled_job_cron: params.scheduled_job_cron.clone(),
        scheduled_job_timezone: params.scheduled_job_timezone.clone(),
    });
    twin.job_status = info.job_status.as_ref().map(|status| BackgroundJobStatus {
        job_state: status.job_state,
        last_task_id: status.last_task_id.clone(),
        last_task_run_at: status.last_task_run_at,
        next_task_scheduled_time: status.next_task_scheduled_time,
    });
    twin
}

fn run_suite(forget_status: bool) -> (usize, Result<SuiteRun, CheckFailure>) {
    let mut store = Store {
        tasks: vec![("tenant2".to_string(), "uuid1".to_string(), BackgroundTaskState::FAILED)],
        job: None,
        forget_status,
    };
    let mut run = BackgroundApiTestSuite::test_single_node();
    let mut events = 0;
    while run != SuiteRun::Finished {
        let event = store.answer(run.action());
        events += 1;
        run = match run.advance(&event) {
            Ok(run) => run,
            Err(failure) => return (events, Err(failure)),
        };
    }
    (events, Ok(run))
}

#[test]
fn store_that_gives_back_what_was_written_passes() {
    assert_eq!(run_suite(false), (16, Ok(SuiteRun::Finished)));
}

#[test]
fn store_that_loses_a_write_fails() {
    assert_eq!(run_suite(true), (15, Err(CheckFailure::WrongJobState)));
}

#[test]
fn suite_builds_an_instance_for_each_half() {
    let start = BackgroundApiTestSuite::test_single_node();
    assert_eq!(start, SuiteRun::BuildForTasks);
    assert!(matches!(start.action(), SuiteAction::Build));
    assert_eq!(
        start.advance(&SuiteEvent::Built),
        Ok(SuiteRun::Tasks(TaskRun::ListNone))
    );
    let last = SuiteRun::Tasks(TaskRun::ListDone);
    assert_eq!(
        last.advance(&SuiteEvent::Task(one_task("uuid1", BackgroundTaskState::DONE))),
        Ok(SuiteRun::BuildForJobs)
    );
    assert!(matches!(SuiteRun::BuildForJobs.action(), SuiteAction::Build));
    assert_eq!(
        SuiteRun::BuildForJobs.advance(&SuiteEvent::Built),
        Ok(SuiteRun::Jobs(JobRun::ListNone))
    );
    assert!(matches!(SuiteRun::Finished.action(), SuiteAction::Finish));
}

#[test]
fn suite_refuses_the_wrong_event() {
    assert_eq!(
        SuiteRun::BuildForTasks.advance(&SuiteEvent::Task(TaskReply::Update(Ok(())))),
        Err(CheckFailure::WrongReply)
    );
    assert_eq!(
        SuiteRun::Tasks(TaskRun::ListNone).advance(&SuiteEvent::Built),
        Err(CheckFailure::WrongReply)
    );
    assert_eq!(
        SuiteRun::Finished.advance(&SuiteEvent::Built),
        Err(CheckFailure::WrongReply)
    );
}

#[test]
fn suite_passes_failures_on() {
    let now = Timestamp { secs: 12, nanos: 0 };
    assert_eq!(
        SuiteRun::Tasks(TaskRun::ListNone)
            .advance_at(&SuiteEvent::Task(TaskReply::List(Err(error()))), now),
        Err(CheckFailure::CallFailed)
    );
    assert_eq!(
        SuiteRun::Tasks(TaskRun::ListNone)
            .advance_at(&SuiteEvent::Task(TaskReply::List(Ok(vec![]))), now),
        Ok(SuiteRun::Tasks(TaskRun::UpdateStarted { create_on: now, expire_at: 17 }))
    );
}
