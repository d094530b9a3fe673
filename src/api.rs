//! Projects and tasks as the remote service describes them, and the drafts
//! that the forms build before submitting.
use vstd::prelude::*;

use crate::text::{label_parts, parse_unsigned, parsed_unsigned, split_labels, texts_view};

verus! {

#[derive(Clone, Debug, PartialEq, Eq)]
pub struct Project {
    pub id: String,
    pub name: String,
    pub comment_count: usize,
    pub order: usize,
    pub color: String,
    pub is_shared: bool,
    pub is_favorite: bool,
    pub parent_id: Option<String>,
    pub is_inbox_project: bool,
    pub is_team_inbox: bool,
    pub view_style: String,
    pub url: String,
}

/// `p` is a project named `name` that exists only locally: empty
/// identifier, no comments, no flags.
pub open spec fn placeholder_project(p: Project, name: Seq<char>) -> bool {
    &&& p.id@ == Seq::<char>::empty()
    &&& p.name@ == name
    &&& p.comment_count == 0
    &&& p.order == 0
    &&& p.color@ == Seq::<char>::empty()
    &&& !p.is_shared
    &&& !p.is_favorite
    &&& p.parent_id matches Some(parent) && parent@ == Seq::<char>::empty()
    &&& !p.is_inbox_project
    &&& !p.is_team_inbox
    &&& p.view_style@ == Seq::<char>::empty()
    &&& p.url@ == Seq::<char>::empty()
}

impl Project {
    /// A project that exists only locally so far: it has the given name and
    /// an empty identifier, to be assigned by the remote service.
    pub fn name(name: &str) -> (r: Project)
        ensures
            placeholder_project(r, name@),
    {
        Project {
            id: String::new(),
            name: name.to_owned(),
            comment_count: 0,
            order: 0,
            color: String::new(),
            is_shared: false,
            is_favorite: false,
            parent_id: Some(String::new()),
            is_inbox_project: false,
            is_team_inbox: false,
            view_style: String::new(),
            url: String::new(),
        }
    }
}

#[derive(Clone, Debug, PartialEq, Eq)]
pub struct Due {
    pub date: Option<String>,
    pub is_recurring: Option<bool>,
    pub datetime: Option<String>,
    pub timezone: Option<String>,
    pub string: Option<String>,
}

impl Default for Due {
    fn default() -> (r: Self)
        ensures
            r.date is None,
            r.is_recurring is None,
            r.datetime is None,
            r.timezone is None,
            r.string is None,
    {
        Due { date: None, is_recurring: None, datetime: None, timezone: None, string: None }
    }
}

#[derive(Clone, Debug, PartialEq, Eq)]
pub struct Task {
    pub creator_id: String,
    pub created_at: String,
    pub assignee_id: Option<String>,
    pub assigner_id: Option<String>,
    pub comment_count: usize,
    pub is_completed: bool,
    pub content: String,
    pub description: String,
    pub id: String,
    pub due: Option<Due>,
    pub labels: Vec<String>,
    pub order: usize,
    pub priority: usize,
    pub project_id: String,
    pub section_id: Option<String>,
    pub parent_id: Option<String>,
    pub due_string: Option<String>,
    pub url: String,
}

/// The fields of the add-task form, as typed.
#[derive(Clone, Debug, PartialEq, Eq)]
pub struct TaskContent {
    pub content: String,
    pub description: String,
    pub labels: String,
    pub priority: String,
    pub due_string: String,
}

impl Default for TaskContent {
    /// An empty draft whose priority reads `1`.
    fn default() -> (r: Self)
        ensures
            r.content@ == Seq::<char>::empty(),
            r.description@ == Seq::<char>::empty(),
            r.labels@ == Seq::<char>::empty(),
            r.priority@ == seq!['1'],
            r.due_string@ == Seq::<char>::empty(),
    {
        let priority = String::from_str("1");
        proof {
            reveal_strlit("1");
        }
        TaskContent {
            content: String::new(),
            description: String::new(),
            labels: String::new(),
            priority,
            due_string: String::new(),
        }
    }
}

/// `t` is the task that the draft `draft` stands for in project `project_id`.
pub open spec fn drafted_task(t: Task, draft: TaskContent, project_id: Seq<char>) -> bool {
    &&& t.creator_id@ == Seq::<char>::empty()
    &&& t.created_at@ == Seq::<char>::empty()
    &&& t.assignee_id is None
    &&& t.assigner_id is None
    &&& t.comment_count == 0
    &&& !t.is_completed
    &&& t.content@ == draft.content@
    &&& t.description@ == draft.description@
    &&& t.id@ == Seq::<char>::empty()
    &&& t.due matches Some(d) && d.date is None && d.is_recurring is None && d.timezone is None
        && d.string is None && (d.datetime matches Some(dt) && dt@ == draft.due_string@)
    &&& texts_view(t.labels@) == label_parts(draft.labels@)
    &&& t.order == 0
    &&& parsed_unsigned(draft.priority@) == Some(t.priority as nat)
    &&& t.project_id@ == project_id
    &&& t.section_id is None
    &&& t.parent_id is None
    &&& t.due_string matches Some(ds) && ds@ == draft.due_string@
    &&& t.url@ == Seq::<char>::empty()
}

impl Task {
    /// The task that a submitted draft stands for, in the given project,
    /// before the remote service has assigned it an identifier.
    ///
    /// The labels are the comma-separated parts of the label text with
    /// spaces removed; the due text becomes both the due date-time and the
    /// due string. The priority text must read as an unsigned number.
    pub fn temp(task_content: TaskContent, project_id: String) -> (r: Task)
        requires
            parsed_unsigned(task_content.priority@) is Some,
        ensures
            drafted_task(r, task_content, project_id@),
    {
        let labels = split_labels(task_content.labels.as_str());
        let mut due = Due::default();
        due.datetime = Some(task_content.due_string.clone());
        let priority = match parse_unsigned(task_content.priority.as_str()) {
            Some(p) => p,
            None => vstd::pervasive::unreached(),
        };
        Task {
            creator_id: String::new(),
            created_at: String::new(),
            assignee_id: None,
            assigner_id: None,
            comment_count: 0,
            is_completed: false,
            content: task_content.content,
            description: task_content.description,
            id: String::new(),
            labels,
            due: Some(due),
            order: 0,
            priority,
            project_id,
            section_id: None,
            parent_id: None,
            due_string: Some(task_content.due_string),
            url: String::new(),
        }
    }
}

/// The body of a request that creates a project.
#[derive(Clone, Debug, PartialEq, Eq)]
pub struct PostProject {
    pub name: String,
}

impl Default for PostProject {
    fn default() -> (r: Self)
        ensures
            r.name@ == Seq::<char>::empty(),
    {
        PostProject { name: String::new() }
    }
}

} // verus!
