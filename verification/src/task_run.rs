//! The checks of the API for background tasks: a task is written as started, read, written as
//! done, read again and listed.
use crate::background::{
    fresh_task, new_background_task, BackgroundTaskIdent, BackgroundTaskState,
    TaskIdentModel, TaskReply, TaskRequest, TaskRequestModel,
};
use crate::check::{go_on, unless, CheckFailure};
use crate::timestamp::{Timestamp, MAX_SECS};
use vstd::prelude::*;

verus! {

/// How far the checks have come: each state waits for the reply to its `request`.
#[derive(Clone, Copy, Debug, PartialEq, Eq, Structural)]
pub enum TaskRun {
    /// Nothing is written yet.
    ListNone,
    UpdateStarted { create_on: Timestamp, expire_at: u64 },
    GetStarted { create_on: Timestamp, expire_at: u64 },
    UpdateDone { create_on: Timestamp, expire_at: u64 },
    GetDone,
    ListDone,
    /// All checks are passed.
    Finished,
}

/// The name of the task that the checks write.
pub open spec fn task_name() -> TaskIdentModel {
    TaskIdentModel { tenant: "tenant1"@, task_id: "uuid1"@ }
}

/// A signed number of seconds, reduced to 64 bits without a sign.
pub open spec fn unsigned_secs(secs: i64) -> u64 {
    if secs >= 0 {
        secs as u64
    } else {
        (secs + 0x1_0000_0000_0000_0000) as u64
    }
}

/// When a task that is created at that time expires: five seconds later.
pub open spec fn expiry(create_on: Timestamp) -> Option<u64> {
    match create_on.later(5) {
        Some(expire_at) => Some(unsigned_secs(expire_at.secs)),
        None => None,
    }
}

/// The request that the checks send in a state.
pub open spec fn task_request(run: TaskRun) -> Option<TaskRequestModel> {
    match run {
        TaskRun::ListNone => Some(TaskRequestModel::List { tenant: "tenant1"@ }),
        TaskRun::UpdateStarted { create_on, expire_at } => Some(
            TaskRequestModel::Update {
                task_name: task_name(),
                task_info: fresh_task(BackgroundTaskState::STARTED, create_on),
                expire_at,
            },
        ),
        TaskRun::GetStarted { .. } => Some(TaskRequestModel::Get { name: task_name() }),
        TaskRun::UpdateDone { create_on, expire_at } => Some(
            TaskRequestModel::Update {
                task_name: task_name(),
                task_info: fresh_task(BackgroundTaskState::DONE, create_on),
                expire_at,
            },
        ),
        TaskRun::GetDone => Some(TaskRequestModel::Get { name: task_name() }),
        TaskRun::ListDone => Some(TaskRequestModel::List { tenant: "tenant1"@ }),
        TaskRun::Finished => None,
    }
}

/// The state after the first list was empty, where the clock reads `now`.
pub open spec fn task_created(now: Timestamp) -> Result<TaskRun, CheckFailure> {
    match expiry(now) {
        Some(expire_at) => Ok(TaskRun::UpdateStarted { create_on: now, expire_at }),
        None => Err(CheckFailure::ExpiryOutOfRange),
    }
}

/// What is wrong with a task that should read as being in `state`.
pub open spec fn read_failure(
    reply: TaskReply,
    state: BackgroundTaskState,
    failure: CheckFailure,
) -> Option<CheckFailure> {
    match reply {
        TaskReply::Get(Ok(Some(info))) => if info.task_state == state {
            None
        } else {
            Some(failure)
        },
        TaskReply::Get(Ok(None)) => Some(CheckFailure::TaskInfoMissing),
        TaskReply::Get(Err(_)) => Some(CheckFailure::CallFailed),
        _ => Some(CheckFailure::WrongReply),
    }
}

/// What is wrong with a list that should hold the one task, done.
pub open spec fn task_list_failure(reply: TaskReply) -> Option<CheckFailure> {
    match reply {
        TaskReply::List(Ok(entries)) => if entries@.len() != 1 {
            Some(CheckFailure::NotOneTask)
        } else if entries@[0].1@ != "uuid1"@ {
            Some(CheckFailure::WrongTaskName)
        } else if entries@[0].2.task_state != BackgroundTaskState::DONE {
            Some(CheckFailure::TaskNotDone)
        } else {
            None
        },
        TaskReply::List(Err(_)) => Some(CheckFailure::CallFailed),
        _ => Some(CheckFailure::WrongReply),
    }
}

/// What the checks make of `reply`, where the clock reads `now` when the task is created. How an
/// update was answered is not looked at.
pub open spec fn task_next(run: TaskRun, reply: TaskReply, now: Timestamp) -> Result<
    TaskRun,
    CheckFailure,
> {
    match run {
        TaskRun::ListNone => match reply {
            TaskReply::List(Ok(entries)) => if entries@.len() == 0 {
                task_created(now)
            } else {
                Err(CheckFailure::ListNotEmpty)
            },
            TaskReply::List(Err(_)) => Err(CheckFailure::CallFailed),
            _ => Err(CheckFailure::WrongReply),
        },
        TaskRun::UpdateStarted { create_on, expire_at } => if reply is Update {
            Ok(TaskRun::GetStarted { create_on, expire_at })
        } else {
            Err(CheckFailure::WrongReply)
        },
        TaskRun::GetStarted { create_on, expire_at } => unless(
            read_failure(reply, BackgroundTaskState::STARTED, CheckFailure::TaskNotStarted),
            TaskRun::UpdateDone { create_on, expire_at },
        ),
        TaskRun::UpdateDone { .. } => if reply is Update {
            Ok(TaskRun::GetDone)
        } else {
            Err(CheckFailure::WrongReply)
        },
        TaskRun::GetDone => unless(
            read_failure(reply, BackgroundTaskState::DONE, CheckFailure::TaskNotDone),
            TaskRun::ListDone,
        ),
        TaskRun::ListDone => unless(task_list_failure(reply), TaskRun::Finished),
        TaskRun::Finished => Err(CheckFailure::WrongReply),
    }
}

/// The name of the task that the checks write.
fn new_task_name() -> (res: BackgroundTaskIdent)
    ensures
        res@ == task_name(),
{
    BackgroundTaskIdent { tenant: "tenant1".to_string(), task_id: "uuid1".to_string() }
}

/// When a task that is created at that time expires, in seconds since 1970, or `None` where the
/// calendar ends before.
pub fn expire_at(create_on: Timestamp) -> (res: Option<u64>)
    requires
        create_on.valid(),
    ensures
        res == expiry(create_on),
        match res {
            Some(seconds) => {
                &&& create_on.secs + 5 <= MAX_SECS
                &&& create_on.secs + 5 >= 0 ==> seconds == create_on.secs + 5
                &&& create_on.secs + 5 < 0 ==> seconds == create_on.secs + 5
                    + 0x1_0000_0000_0000_0000
            },
            None => create_on.secs + 5 > MAX_SECS,
        },
{
    match create_on.checked_add_seconds(5) {
        Some(expire_at) => {
            let secs: i64 = expire_at.secs;
            assert(secs < 0 ==> secs as u64 == secs + 0x1_0000_0000_0000_0000) by (bit_vector);
            #[verifier::truncate]
            let unsigned: u64 = secs as u64;
            Some(unsigned)
        },
        None => None,
    }
}

/// Checks a task that should read as being in `state`.
fn check_read(reply: &TaskReply, state: BackgroundTaskState, failure: CheckFailure) -> (res: Option<
    CheckFailure,
>)
    ensures
        res == read_failure(*reply, state, failure),
{
    match reply {
        TaskReply::Get(Ok(Some(info))) => if info.task_state == state {
            None
        } else {
            Some(failure)
        },
        TaskReply::Get(Ok(None)) => Some(CheckFailure::TaskInfoMissing),
        TaskReply::Get(Err(_)) => Some(CheckFailure::CallFailed),
        _ => Some(CheckFailure::WrongReply),
    }
}

/// Checks a list that should hold the one task, done.
fn check_list(reply: &TaskReply) -> (res: Option<CheckFailure>)
    ensures
        res == task_list_failure(*reply),
{
    match reply {
        TaskReply::List(Ok(entries)) => {
            if entries.len() != 1 {
                Some(CheckFailure::NotOneTask)
            } else if entries[0].1 != "uuid1".to_string() {
                Some(CheckFailure::WrongTaskName)
            } else if entries[0].2.task_state != BackgroundTaskState::DONE {
                Some(CheckFailure::TaskNotDone)
            } else {
                None
            }
        },
        TaskReply::List(Err(_)) => Some(CheckFailure::CallFailed),
        _ => Some(CheckFailure::WrongReply),
    }
}

impl TaskRun {
    /// The request to send next, or `None` when all checks are passed.
    pub fn request(&self) -> (res: Option<TaskRequest>)
        ensures
            match res {
                Some(request) => task_request(*self) == Some(request@),
                None => task_request(*self) is None,
            },
            match *self {
                TaskRun::ListNone | TaskRun::ListDone => {
                    &&& res matches Some(TaskRequest::List { tenant })
                    &&& tenant@ == "tenant1"@
                },
                TaskRun::UpdateStarted { create_on, expire_at } => {
                    &&& res matches Some(TaskRequest::Update { task_name, task_info, expire_at: e })
                    &&& task_name.tenant@ == "tenant1"@
                    &&& task_name.task_id@ == "uuid1"@
                    &&& task_info.task_state == BackgroundTaskState::STARTED
                    &&& task_info.created_at == create_on
                    &&& e == expire_at
                },
                TaskRun::UpdateDone { create_on, expire_at } => {
                    &&& res matches Some(TaskRequest::Update { task_name, task_info, expire_at: e })
                    &&& task_name.tenant@ == "tenant1"@
                    &&& task_name.task_id@ == "uuid1"@
                    &&& task_info.task_state == BackgroundTaskState::DONE
                    &&& task_info.created_at == create_on
                    &&& e == expire_at
                },
                TaskRun::GetStarted { .. } | TaskRun::GetDone => {
                    &&& res matches Some(TaskRequest::Get { name })
                    &&& name.tenant@ == "tenant1"@
                    &&& name.task_id@ == "uuid1"@
                },
                TaskRun::Finished => res is None,
            },
    {
        match *self {
            TaskRun::ListNone => Some(TaskRequest::List { tenant: "tenant1".to_string() }),
            TaskRun::UpdateStarted { create_on, expire_at } => Some(
                TaskRequest::Update {
                    task_name: new_task_name(),
                    task_info: new_background_task(BackgroundTaskState::STARTED, create_on),
                    expire_at,
                },
            ),
            TaskRun::GetStarted { .. } => Some(TaskRequest::Get { name: new_task_name() }),
            TaskRun::UpdateDone { create_on, expire_at } => Some(
                TaskRequest::Update {
                    task_name: new_task_name(),
                    task_info: new_background_task(BackgroundTaskState::DONE, create_on),
                    expire_at,
                },
            ),
            TaskRun::GetDone => Some(TaskRequest::Get { name: new_task_name() }),
            TaskRun::ListDone => Some(TaskRequest::List { tenant: "tenant1".to_string() }),
            TaskRun::Finished => None,
        }
    }

    /// Checks the reply to the request of this state, where the clock reads `now` when the task is
    /// created.
    pub fn advance_at(self, reply: &TaskReply, now: Timestamp) -> (res: Result<
        TaskRun,
        CheckFailure,
    >)
        requires
            now.valid(),
        ensures
            res == task_next(self, *reply, now),
    {
        match self {
            TaskRun::ListNone => match reply {
                TaskReply::List(Ok(entries)) => {
                    if entries.len() == 0 {
                        match expire_at(now) {
                            Some(expire_at) => Ok(
                                TaskRun::UpdateStarted { create_on: now, expire_at },
                            ),
                            None => Err(CheckFailure::ExpiryOutOfRange),
                        }
                    } else {
                        Err(CheckFailure::ListNotEmpty)
                    }
                },
                TaskReply::List(Err(_)) => Err(CheckFailure::CallFailed),
                _ => Err(CheckFailure::WrongReply),
            },
            TaskRun::UpdateStarted { create_on, expire_at } => match reply {
                TaskReply::Update(_) => Ok(TaskRun::GetStarted { create_on, expire_at }),
                _ => Err(CheckFailure::WrongReply),
            },
            TaskRun::GetStarted { create_on, expire_at } => go_on(
                check_read(reply, BackgroundTaskState::STARTED, CheckFailure::TaskNotStarted),
                TaskRun::UpdateDone { create_on, expire_at },
            ),
            TaskRun::UpdateDone { .. } => match reply {
                TaskReply::Update(_) => Ok(TaskRun::GetDone),
                _ => Err(CheckFailure::WrongReply),
            },
            TaskRun::GetDone => go_on(
                check_read(reply, BackgroundTaskState::DONE, CheckFailure::TaskNotDone),
                TaskRun::ListDone,
            ),
            TaskRun::ListDone => go_on(check_list(reply), TaskRun::Finished),
            TaskRun::Finished => Err(CheckFailure::WrongReply),
        }
    }

    /// Checks the reply to the request of this state. A task is created at the present time.
    pub fn advance(self, reply: &TaskReply) -> (res: Result<TaskRun, CheckFailure>)
        ensures
            exists|now: Timestamp|
                #![trigger task_next(self, *reply, now)]
                {
                    &&& now.valid()
                    &&& now.secs >= 0
                    &&& self is ListNone ==> now.read_from_clock()
                    &&& res == task_next(self, *reply, now)
                },
            self is ListNone && res is Ok ==> {
                &&& res matches Ok(TaskRun::UpdateStarted { create_on, expire_at })
                &&& create_on.read_from_clock()
                &&& expire_at == create_on.secs + 5
            },
    {
        let now = match self {
            TaskRun::ListNone => Timestamp::now(),
            _ => Timestamp { secs: 0, nanos: 0 },
        };
        self.advance_at(reply, now)
    }
}

} // verus!
