//! The task tools.

use vstd::prelude::*;

use crate::feishu::client::{full_url, list_tasks_path, opt_str, opt_string, ApiRequest, FeishuClient, HttpMethod, RequestBody};
use crate::feishu::error::FeishuError;
use crate::feishu::types::{Task, TaskStatus};

verus! {

/// The answer of `list_tasks`.
#[derive(Debug, Clone)]
pub struct ListTasksResponse {
    pub tasks: Vec<Task>,
    pub total: Option<i32>,
}

impl From<Vec<Task>> for ListTasksResponse {
    fn from(tasks: Vec<Task>) -> (r: ListTasksResponse)
        ensures
            r.tasks@ == tasks@,
            r.total is None,
    {
        ListTasksResponse { tasks, total: None }
    }
}

impl vstd::std_specs::convert::FromSpecImpl<Vec<Task>> for ListTasksResponse {
    open spec fn obeys_from_spec() -> bool {
        true
    }

    open spec fn from_spec(tasks: Vec<Task>) -> ListTasksResponse {
        ListTasksResponse { tasks, total: None }
    }
}

/// The answer of `list_tasks` hands back the tasks unchanged, in order,
/// with no total.
pub proof fn lemma_task_list_reports_all(tasks: Vec<Task>)
    ensures
        <ListTasksResponse as vstd::std_specs::convert::FromSpec<Vec<Task>>>::from_spec(tasks).tasks@ == tasks@,
        <ListTasksResponse as vstd::std_specs::convert::FromSpec<Vec<Task>>>::from_spec(tasks).total is None,
{
}

/// The status that a status name stands for.
pub open spec fn status_named(name: Seq<char>) -> Option<TaskStatus> {
    if name == "todo"@ {
        Some(TaskStatus::Todo)
    } else if name == "in_progress"@ {
        Some(TaskStatus::InProgress)
    } else if name == "done"@ {
        Some(TaskStatus::Done)
    } else {
        None
    }
}

/// Reads a status name: `todo`, `in_progress` or `done`.  Any other name is
/// an `ApiError` with code 400 that names it.
pub fn parse_task_status(status: &str) -> (result: Result<TaskStatus, FeishuError>)
    ensures
        status_named(status@) matches Some(s) ==> result == Ok::<TaskStatus, FeishuError>(s),
        status_named(status@) is None ==> (result matches Err(FeishuError::ApiError { code, msg }) && code == 400
            && msg@ == "Invalid status: "@ + status@ + ". Expected 'todo', 'in_progress', or 'done'"@),
{
    let name = status.to_owned();
    if name == "todo".to_owned() {
        Ok(TaskStatus::Todo)
    } else if name == "in_progress".to_owned() {
        Ok(TaskStatus::InProgress)
    } else if name == "done".to_owned() {
        Ok(TaskStatus::Done)
    } else {
        let msg = "Invalid status: ".to_owned().concat(status).concat(
            ". Expected 'todo', 'in_progress', or 'done'",
        );
        Err(FeishuError::ApiError { code: 400, msg })
    }
}

/// `list_tasks`: lists the tasks of a goal.
pub fn list_tasks_request(client: &FeishuClient, goal_id: &str) -> (req: ApiRequest)
    ensures
        req.method == HttpMethod::Get,
        req.url@ == full_url(client.base(), list_tasks_path(Some(goal_id@))),
        req.body is None,
{
    client.list_tasks_request(Some(goal_id))
}

/// `get_task`: reads one task.
pub fn get_task_request(client: &FeishuClient, task_id: &str) -> (req: ApiRequest)
    ensures
        req.method == HttpMethod::Get,
        req.url@ == full_url(client.base(), "/task/v2/tasks/"@ + task_id@),
        req.body is None,
{
    client.get_task_request(task_id)
}

/// `create_task`: creates a task under a goal, without a description.
pub fn create_task_request(
    client: &FeishuClient,
    goal_id: &str,
    title: &str,
    assignee_id: Option<&str>,
    due_date: Option<&str>,
) -> (req: ApiRequest)
    ensures
        req.method == HttpMethod::Post,
        req.url@ == full_url(client.base(), "/task/v2/tasks"@),
        req.body matches Some(RequestBody::CreateTask(b)) && b.title@ == title@ && b.description is None
            && opt_string(b.assignee_id) == opt_str(assignee_id) && opt_string(b.due_date) == opt_str(due_date)
            && opt_string(b.goal_id) == Some(goal_id@),
{
    client.create_task_request(title, None, assignee_id, due_date, Some(goal_id))
}

/// `update_task_status`: sets a task's status, named as `parse_task_status`
/// reads it; an unknown name is refused before any request is made.
pub fn update_task_status_request(client: &FeishuClient, task_id: &str, status: &str) -> (result: Result<ApiRequest, FeishuError>)
    ensures
        status_named(status@) is None ==> (result matches Err(FeishuError::ApiError { code, msg }) && code == 400
            && msg@ == "Invalid status: "@ + status@ + ". Expected 'todo', 'in_progress', or 'done'"@),
        status_named(status@) matches Some(s) ==> (result matches Ok(req) && req.method == HttpMethod::Patch
            && req.url@ == full_url(client.base(), "/task/v2/tasks/"@ + task_id@) && (req.body matches Some(
            RequestBody::UpdateTaskStatus(b),
        ) && b.status == s)),
{
    let task_status = parse_task_status(status)?;
    Ok(client.update_task_status_request(task_id, task_status))
}

/// `complete_task`: marks a task as completed.
pub fn complete_task_request(client: &FeishuClient, task_id: &str) -> (req: ApiRequest)
    ensures
        req.method == HttpMethod::Post,
        req.url@ == full_url(client.base(), "/task/v2/tasks/"@ + task_id@ + "/complete"@),
        req.body matches Some(RequestBody::Unit),
{
    client.complete_task_request(task_id)
}

} // verus!
