//! The key dispatcher: from a key and the current state to the next state,
//! and the remote call, if any, that the key asks for.
//!
//! The caller performs the remote call and, where it says so, puts the
//! freshly fetched list in place with `Database::replace_projects` or
//! `Database::replace_tasks`.
use vstd::prelude::*;

use crate::api::{drafted_task, placeholder_project, PostProject, Project, Task, TaskContent};
use crate::config::Config;
use crate::input::{erased_from_field, push_char_to_field, pushed_to_field, remove_char_from_field};
use crate::menu::{cleanup, forms_reset, Database, MenuItem};
use crate::navigation::{
    change_active_add_task_input_field, change_active_add_task_input_field_back, focus_stepped,
    navigate_down_projects, navigate_down_tasks, navigate_up_projects, navigate_up_tasks,
    next_field, prev_field, selected_project_task_count, selected_task_count, stepped_down,
    stepped_up,
};
use crate::project::{ProjectItem, ProjectStatus};
use crate::task::{
    count_tasks_in_project, plain_highlight, tasks_in_project, AddTaskHighlight, TaskItem,
    TaskStatus,
};
use crate::text::{parse_unsigned, parsed_unsigned};

verus! {

/// Whether the program goes on after a key.
#[derive(Clone, Copy, Debug, PartialEq, Eq, Structural)]
pub enum EventExit {
    Break,
    Continue,
}

/// A key press, as far as the dispatcher tells keys apart.
#[derive(Clone, Copy, Debug, PartialEq, Eq, Structural)]
pub enum Key {
    Char(char),
    Esc,
    Backspace,
    Enter,
    Tab,
    BackTab,
    Other,
}

/// A call to the remote service that a key asks for.
#[derive(Clone, Debug, PartialEq, Eq)]
pub enum RemoteCall {
    /// Post the carried task to the service, then fetch all tasks again.
    CreateTask(Task),
    /// Post the carried project to the service, then fetch all projects again.
    CreateProject(PostProject),
    /// Delete the project with this identifier.
    DeleteProject(String),
    /// Delete the task with this identifier, then fetch all tasks again.
    DeleteTask(String),
}

pub open spec fn is_form(m: MenuItem) -> bool {
    m == MenuItem::AddTask || m == MenuItem::AddProject
}

pub open spec fn is_list(m: MenuItem) -> bool {
    m == MenuItem::Projects || m == MenuItem::Tasks
}

/// The index of the project under the cursor, if the cursor is on one.
pub open spec fn selected_project(p: ProjectStatus, d: Database) -> Option<int> {
    match p.project_table_state.selected {
        Some(i) => if i < d.projects@.len() {
            Some(i as int)
        } else {
            None
        },
        None => None,
    }
}

/// An untouched add-task draft.
pub open spec fn fresh_draft(c: TaskContent) -> bool {
    &&& c.content@ == Seq::<char>::empty()
    &&& c.description@ == Seq::<char>::empty()
    &&& c.labels@ == Seq::<char>::empty()
    &&& c.priority@ == seq!['1']
    &&& c.due_string@ == Seq::<char>::empty()
}

/// Whether the project `id` is one of the first `p` projects.
pub open spec fn listed_before(projects: Seq<Project>, p: int, id: Seq<char>) -> bool {
    exists|j: int| 0 <= j < p && j < projects.len() && #[trigger] projects[j].id@ == id
}

/// The number of tasks that belong to one of the first `p` projects.
pub open spec fn tasks_before(tasks: Seq<Task>, projects: Seq<Project>, p: int) -> nat
    decreases tasks.len(),
{
    if tasks.len() == 0 {
        0
    } else {
        tasks_before(tasks.drop_last(), projects, p) + if listed_before(
            projects,
            p,
            tasks.last().project_id@,
        ) {
            1nat
        } else {
            0nat
        }
    }
}

/// The position in the whole task list of row `t` of project `p`'s tasks:
/// the tasks of the projects listed before `p` come first.
pub open spec fn combined_index(d: Database, p: int, t: int) -> int {
    tasks_before(d.tasks@, d.projects@, p) + t
}

fn is_listed_before(projects: &Vec<Project>, p: usize, id: &String) -> (r: bool)
    ensures
        r == listed_before(projects@, p as int, id@),
{
    let mut j: usize = 0;
    while j < p && j < projects.len()
        invariant
            j <= p,
            j <= projects@.len(),
            forall|k: int| 0 <= k < j ==> projects@[k].id@ != id@,
        decreases p - j,
    {
        if projects[j].id == *id {
            return true;
        }
        j = j + 1;
    }
    false
}

/// The position in the whole task list of row `selected_task` of the tasks
/// of project `selected_project`, if there is a task there.
pub fn combined_task_index(database: &Database, selected_project: usize, selected_task: usize) -> (r:
    Option<usize>)
    ensures
        r matches Some(i) ==> i == combined_index(
            *database,
            selected_project as int,
            selected_task as int,
        ),
        r is None <==> combined_index(*database, selected_project as int, selected_task as int)
            >= database.tasks@.len(),
{
    let mut task_count: usize = 0;
    let mut i: usize = 0;
    while i < database.tasks.len()
        invariant
            i <= database.tasks@.len(),
            task_count <= i,
            task_count as nat == tasks_before(
                database.tasks@.take(i as int),
                database.projects@,
                selected_project as int,
            ),
        decreases database.tasks@.len() - i,
    {
        assert(database.tasks@.take(i + 1).drop_last() =~= database.tasks@.take(i as int));
        if is_listed_before(&database.projects, selected_project, &database.tasks[i].project_id) {
            task_count = task_count + 1;
        }
        i = i + 1;
    }
    assert(database.tasks@.take(i as int) =~= database.tasks@);
    if selected_task < database.tasks.len() - task_count {
        Some(task_count + selected_task)
    } else {
        None
    }
}

fn selected_project_index(project_status: &ProjectStatus, database: &Database) -> (r: Option<
    usize,
>)
    ensures
        r matches Some(i) ==> selected_project(*project_status, *database) == Some(i as int),
        r is None ==> selected_project(*project_status, *database) is None,
{
    match project_status.project_table_state.selected() {
        Some(i) => if i < database.projects.len() {
            Some(i)
        } else {
            None
        },
        None => None,
    }
}

fn copy_content(c: &TaskContent) -> (r: TaskContent)
    ensures
        r == *c,
{
    TaskContent {
        content: c.content.clone(),
        description: c.description.clone(),
        labels: c.labels.clone(),
        priority: c.priority.clone(),
        due_string: c.due_string.clone(),
    }
}

/// Submitting the add-task form: when a project is selected and the
/// priority text reads as a number, the drafted task is added to the local
/// list in that project, sent to the remote service, the draft is emptied
/// and the project list shown. Otherwise nothing happens.
pub open spec fn submit_task_step(
    m0: MenuItem,
    t0: TaskStatus,
    ps0: ProjectStatus,
    d0: Database,
    m1: MenuItem,
    t1: TaskStatus,
    ps1: ProjectStatus,
    d1: Database,
    call: Option<RemoteCall>,
) -> bool {
    if selected_project(ps0, d0) is Some && parsed_unsigned(t0.task_content.priority@) is Some {
        let id = d0.projects@[selected_project(ps0, d0).unwrap()].id@;
        &&& d1.projects == d0.projects
        &&& d1.tasks@.len() == d0.tasks@.len() + 1
        &&& d1.tasks@.drop_last() == d0.tasks@
        &&& drafted_task(d1.tasks@.last(), t0.task_content, id)
        &&& call matches Some(RemoteCall::CreateTask(t)) && drafted_task(t, t0.task_content, id)
        &&& m1 == MenuItem::Projects
        &&& t1.task_table_state == t0.task_table_state
        &&& t1.active_task_item == TaskItem::Empty
        &&& t1.add_task_highlight == plain_highlight()
        &&& fresh_draft(t1.task_content)
        &&& ps1 == ps0
    } else {
        &&& m1 == m0 && t1 == t0 && ps1 == ps0 && d1 == d0
        &&& call is None
    }
}

/// Sends the add-task form's draft as a new task of the selected project.
pub fn submit_task(
    active_menu_item: &mut MenuItem,
    task_status: &mut TaskStatus,
    project_status: &mut ProjectStatus,
    database: &mut Database,
) -> (r: Option<RemoteCall>)
    ensures
        submit_task_step(
            *old(active_menu_item),
            *old(task_status),
            *old(project_status),
            *old(database),
            *final(active_menu_item),
            *final(task_status),
            *final(project_status),
            *final(database),
            r,
        ),
{
    let selected = match selected_project_index(project_status, database) {
        Some(s) => s,
        None => return None,
    };
    match parse_unsigned(task_status.task_content.priority.as_str()) {
        Some(_) => {},
        None => return None,
    }
    let project_id = database.projects[selected].id.clone();
    let temp_task = Task::temp(copy_content(&task_status.task_content), project_id.clone());
    let posted = Task::temp(copy_content(&task_status.task_content), project_id);
    let ghost before = database.tasks@;
    database.append_task(temp_task);
    assert(database.tasks@.drop_last() =~= before);
    task_status.task_content = TaskContent::default();
    *active_menu_item = MenuItem::Projects;
    task_status.add_task_highlight = AddTaskHighlight::default();
    task_status.active_task_item = TaskItem::Empty;
    Some(RemoteCall::CreateTask(posted))
}

/// Submitting the add-project form: a project with the typed name is added
/// to the local list and sent to the remote service, the draft is emptied
/// and the project list shown.
pub open spec fn submit_project_step(
    m0: MenuItem,
    t0: TaskStatus,
    ps0: ProjectStatus,
    d0: Database,
    m1: MenuItem,
    t1: TaskStatus,
    ps1: ProjectStatus,
    d1: Database,
    call: Option<RemoteCall>,
) -> bool {
    let name = ps0.project_item.name@;
    &&& d1.projects@.len() == d0.projects@.len() + 1
    &&& d1.projects@.drop_last() == d0.projects@
    &&& placeholder_project(d1.projects@.last(), name)
    &&& d1.tasks == d0.tasks
    &&& call matches Some(RemoteCall::CreateProject(pp)) && pp.name@ == name
    &&& m1 == MenuItem::Projects
    &&& t1 == t0
    &&& ps1.project_table_state == ps0.project_table_state
    &&& ps1.active_project_item == ProjectItem::Empty
    &&& ps1.project_item.name@ == Seq::<char>::empty()
}

/// Sends the add-project form's draft as a new project.
pub fn submit_project(
    active_menu_item: &mut MenuItem,
    task_status: &mut TaskStatus,
    project_status: &mut ProjectStatus,
    database: &mut Database,
) -> (r: Option<RemoteCall>)
    ensures
        submit_project_step(
            *old(active_menu_item),
            *old(task_status),
            *old(project_status),
            *old(database),
            *final(active_menu_item),
            *final(task_status),
            *final(project_status),
            *final(database),
            r,
        ),
{
    let temp_project = Project::name(project_status.project_item.name.as_str());
    let ghost before = database.projects@;
    database.append_project(temp_project);
    assert(database.projects@.drop_last() =~= before);
    let project_item = PostProject { name: project_status.project_item.name.clone() };
    project_status.project_item = PostProject::default();
    *active_menu_item = MenuItem::Projects;
    project_status.active_project_item = ProjectItem::Empty;
    Some(RemoteCall::CreateProject(project_item))
}

/// Deleting the selected project: the first project is never deleted;
/// another is removed from the local list, deleted remotely, and the cursor
/// moves one row up.
pub open spec fn delete_project_step(
    m0: MenuItem,
    t0: TaskStatus,
    ps0: ProjectStatus,
    d0: Database,
    m1: MenuItem,
    t1: TaskStatus,
    ps1: ProjectStatus,
    d1: Database,
    call: Option<RemoteCall>,
) -> bool {
    match ps0.project_table_state.selected {
        Some(sel) => if sel == 0 || sel >= d0.projects@.len() {
            &&& m1 == m0 && t1 == t0 && ps1 == ps0 && d1 == d0
            &&& call is None
        } else {
            &&& d1.projects@ == d0.projects@.remove(sel as int)
            &&& d1.tasks == d0.tasks
            &&& call matches Some(RemoteCall::DeleteProject(id)) && id@ == d0.projects@[sel as int].id@
            &&& ps1.project_table_state.selected == Some((sel - 1) as usize)
            &&& ps1.active_project_item == ps0.active_project_item
            &&& ps1.project_item == ps0.project_item
            &&& m1 == m0 && t1 == t0
        },
        None => {
            &&& m1 == m0 && t1 == t0 && ps1 == ps0 && d1 == d0
            &&& call is None
        },
    }
}

/// Deletes the selected project, unless it is the first one.
pub fn delete_selected_project(
    active_menu_item: &mut MenuItem,
    task_status: &mut TaskStatus,
    project_status: &mut ProjectStatus,
    database: &mut Database,
) -> (r: Option<RemoteCall>)
    ensures
        delete_project_step(
            *old(active_menu_item),
            *old(task_status),
            *old(project_status),
            *old(database),
            *final(active_menu_item),
            *final(task_status),
            *final(project_status),
            *final(database),
            r,
        ),
{
    let selected = match project_status.project_table_state.selected() {
        Some(s) => s,
        None => return None,
    };
    if selected == 0 || selected >= database.projects.len() {
        return None;
    }
    let id = database.projects[selected].id.clone();
    database.remove_project_at(selected);
    project_status.project_table_state.select(Some(selected - 1));
    Some(RemoteCall::DeleteProject(id))
}

/// Deleting the selected task: it is found in the whole task list at its
/// combined index, removed locally and deleted remotely. When it was the
/// only task of its project the project list is shown again with the task
/// cursor back on the first row; otherwise the cursor moves one row up,
/// unless it is on the first row already.
pub open spec fn delete_task_step(
    m0: MenuItem,
    t0: TaskStatus,
    ps0: ProjectStatus,
    d0: Database,
    m1: MenuItem,
    t1: TaskStatus,
    ps1: ProjectStatus,
    d1: Database,
    call: Option<RemoteCall>,
) -> bool {
    match (t0.task_table_state.selected, selected_project(ps0, d0)) {
        (Some(st), Some(sp)) => {
            let idx = combined_index(d0, sp, st as int);
            if idx < d0.tasks@.len() {
                let count = tasks_in_project(d0.tasks@, d0.projects@[sp].id@);
                &&& d1.tasks@ == d0.tasks@.remove(idx)
                &&& d1.projects == d0.projects
                &&& call matches Some(RemoteCall::DeleteTask(id)) && id@ == d0.tasks@[idx].id@
                &&& ps1 == ps0
                &&& t1.active_task_item == t0.active_task_item
                &&& t1.add_task_highlight == t0.add_task_highlight
                &&& t1.task_content == t0.task_content
                &&& if st == 0 && count == 1 {
                    m1 == MenuItem::Projects && t1.task_table_state.selected == Some(0usize)
                } else if st > 0 {
                    m1 == m0 && t1.task_table_state.selected == Some((st - 1) as usize)
                } else {
                    m1 == m0 && t1.task_table_state == t0.task_table_state
                }
            } else {
                &&& m1 == m0 && t1 == t0 && ps1 == ps0 && d1 == d0
                &&& call is None
            }
        },
        _ => {
            &&& m1 == m0 && t1 == t0 && ps1 == ps0 && d1 == d0
            &&& call is None
        },
    }
}

/// Deletes the task under the task cursor.
pub fn delete_selected_task(
    active_menu_item: &mut MenuItem,
    task_status: &mut TaskStatus,
    project_status: &mut ProjectStatus,
    database: &mut Database,
) -> (r: Option<RemoteCall>)
    ensures
        delete_task_step(
            *old(active_menu_item),
            *old(task_status),
            *old(project_status),
            *old(database),
            *final(active_menu_item),
            *final(task_status),
            *final(project_status),
            *final(database),
            r,
        ),
{
    let selected = match task_status.task_table_state.selected() {
        Some(s) => s,
        None => return None,
    };
    let selected_project = match selected_project_index(project_status, database) {
        Some(p) => p,
        None => return None,
    };
    let index = match combined_task_index(database, selected_project, selected) {
        Some(i) => i,
        None => return None,
    };
    let task_count = count_tasks_in_project(
        &database.projects[selected_project].id,
        &database.tasks,
    );
    let removed = database.remove_task_at(index);
    if selected == 0 && task_count == 1 {
        *active_menu_item = MenuItem::Projects;
        task_status.task_table_state.select(Some(0));
    } else if selected > 0 {
        task_status.task_table_state.select(Some(selected - 1));
    }
    Some(RemoteCall::DeleteTask(removed.id))
}

/// Nothing changes.
pub open spec fn unchanged(
    m0: MenuItem,
    t0: TaskStatus,
    ps0: ProjectStatus,
    d0: Database,
    m1: MenuItem,
    t1: TaskStatus,
    ps1: ProjectStatus,
    d1: Database,
) -> bool {
    m1 == m0 && t1 == t0 && ps1 == ps0 && d1 == d0
}

/// Moving one view to the left: from Home to Projects, from Projects to
/// Home (putting the project cursor on the first row), from Tasks to
/// Projects.
pub open spec fn step_left_step(
    m0: MenuItem,
    t0: TaskStatus,
    ps0: ProjectStatus,
    d0: Database,
    m1: MenuItem,
    t1: TaskStatus,
    ps1: ProjectStatus,
    d1: Database,
) -> bool {
    if m0 == MenuItem::Projects {
        &&& m1 == MenuItem::Home
        &&& ps1.project_table_state.selected == Some(0usize)
        &&& ps1.active_project_item == ps0.active_project_item
        &&& ps1.project_item == ps0.project_item
        &&& t1 == t0 && d1 == d0
    } else if m0 == MenuItem::Home || m0 == MenuItem::Tasks {
        m1 == MenuItem::Projects && t1 == t0 && ps1 == ps0 && d1 == d0
    } else {
        unchanged(m0, t0, ps0, d0, m1, t1, ps1, d1)
    }
}

/// Moves one view to the left.
pub fn step_left(
    active_menu_item: &mut MenuItem,
    task_status: &mut TaskStatus,
    project_status: &mut ProjectStatus,
    database: &mut Database,
)
    ensures
        step_left_step(
            *old(active_menu_item),
            *old(task_status),
            *old(project_status),
            *old(database),
            *final(active_menu_item),
            *final(task_status),
            *final(project_status),
            *final(database),
        ),
{
    match *active_menu_item {
        MenuItem::Home => *active_menu_item = MenuItem::Projects,
        MenuItem::Projects => {
            *active_menu_item = MenuItem::Home;
            project_status.project_table_state.select(Some(0));
        },
        MenuItem::Tasks => *active_menu_item = MenuItem::Projects,
        _ => {},
    }
}

/// Moving one view to the right: from Home to Projects, from Tasks to
/// Projects, and from Projects into the selected project's tasks with the
/// task cursor on the first row, which is refused (the project list stays)
/// when that project has no tasks.
pub open spec fn step_right_step(
    m0: MenuItem,
    t0: TaskStatus,
    ps0: ProjectStatus,
    d0: Database,
    m1: MenuItem,
    t1: TaskStatus,
    ps1: ProjectStatus,
    d1: Database,
) -> bool {
    if m0 == MenuItem::Projects {
        if ps0.project_table_state.selected is Some {
            &&& m1 == if selected_task_count(d0, ps0.project_table_state) matches Some(n) && n > 0 {
                MenuItem::Tasks
            } else {
                MenuItem::Projects
            }
            &&& t1.task_table_state.selected == Some(0usize)
            &&& t1.active_task_item == t0.active_task_item
            &&& t1.add_task_highlight == t0.add_task_highlight
            &&& t1.task_content == t0.task_content
            &&& ps1 == ps0 && d1 == d0
        } else {
            unchanged(m0, t0, ps0, d0, m1, t1, ps1, d1)
        }
    } else if m0 == MenuItem::Home || m0 == MenuItem::Tasks {
        m1 == MenuItem::Projects && t1 == t0 && ps1 == ps0 && d1 == d0
    } else {
        unchanged(m0, t0, ps0, d0, m1, t1, ps1, d1)
    }
}

/// Moves one view to the right.
pub fn step_right(
    active_menu_item: &mut MenuItem,
    task_status: &mut TaskStatus,
    project_status: &mut ProjectStatus,
    database: &mut Database,
)
    ensures
        step_right_step(
            *old(active_menu_item),
            *old(task_status),
            *old(project_status),
            *old(database),
            *final(active_menu_item),
            *final(task_status),
            *final(project_status),
            *final(database),
        ),
{
    match *active_menu_item {
        MenuItem::Home => *active_menu_item = MenuItem::Projects,
        MenuItem::Projects => {
            if project_status.project_table_state.selected().is_some() {
                task_status.task_table_state.select(Some(0));
                match selected_project_task_count(database, &project_status.project_table_state) {
                    Some(n) => if n > 0 {
                        *active_menu_item = MenuItem::Tasks;
                    },
                    None => {},
                }
            }
        },
        MenuItem::Tasks => *active_menu_item = MenuItem::Projects,
        _ => {},
    }
}

/// Opening the add-project form from a list view, with its name field
/// focused.
pub open spec fn open_add_project_step(
    m0: MenuItem,
    t0: TaskStatus,
    ps0: ProjectStatus,
    d0: Database,
    m1: MenuItem,
    t1: TaskStatus,
    ps1: ProjectStatus,
    d1: Database,
) -> bool {
    if is_list(m0) {
        &&& m1 == MenuItem::AddProject
        &&& ps1.active_project_item == ProjectItem::Name
        &&& ps1.project_table_state == ps0.project_table_state
        &&& ps1.project_item == ps0.project_item
        &&& t1 == t0 && d1 == d0
    } else {
        unchanged(m0, t0, ps0, d0, m1, t1, ps1, d1)
    }
}

/// Opens the add-project form.
pub fn open_add_project(
    active_menu_item: &mut MenuItem,
    task_status: &mut TaskStatus,
    project_status: &mut ProjectStatus,
    database: &mut Database,
)
    ensures
        open_add_project_step(
            *old(active_menu_item),
            *old(task_status),
            *old(project_status),
            *old(database),
            *final(active_menu_item),
            *final(task_status),
            *final(project_status),
            *final(database),
        ),
{
    if *active_menu_item == MenuItem::Projects || *active_menu_item == MenuItem::Tasks {
        project_status.active_project_item = ProjectItem::Name;
        *active_menu_item = MenuItem::AddProject;
    }
}

/// Opening the add-task form from a list view, with its name field focused
/// and highlighted in `color`.
pub open spec fn open_add_task_step(
    color: crate::config::Color,
    m0: MenuItem,
    t0: TaskStatus,
    ps0: ProjectStatus,
    d0: Database,
    m1: MenuItem,
    t1: TaskStatus,
    ps1: ProjectStatus,
    d1: Database,
) -> bool {
    if is_list(m0) {
        &&& m1 == MenuItem::AddTask
        &&& t1.active_task_item == TaskItem::Name
        &&& t1.add_task_highlight == AddTaskHighlight { name: color, ..t0.add_task_highlight }
        &&& t1.task_table_state == t0.task_table_state
        &&& t1.task_content == t0.task_content
        &&& ps1 == ps0 && d1 == d0
    } else {
        unchanged(m0, t0, ps0, d0, m1, t1, ps1, d1)
    }
}

/// Opens the add-task form.
pub fn open_add_task(
    active_menu_item: &mut MenuItem,
    task_status: &mut TaskStatus,
    project_status: &mut ProjectStatus,
    config: &Config,
    database: &mut Database,
)
    ensures
        open_add_task_step(
            config.color,
            *old(active_menu_item),
            *old(task_status),
            *old(project_status),
            *old(database),
            *final(active_menu_item),
            *final(task_status),
            *final(project_status),
            *final(database),
        ),
{
    if *active_menu_item == MenuItem::Projects || *active_menu_item == MenuItem::Tasks {
        *active_menu_item = MenuItem::AddTask;
        task_status.active_task_item = TaskItem::Name;
        task_status.add_task_highlight.name = config.color;
    }
}

/// A step down (`down`) or up the list that the view shows: the project
/// list in Projects, the selected project's tasks in Tasks.
pub open spec fn move_step(
    down: bool,
    m0: MenuItem,
    t0: TaskStatus,
    ps0: ProjectStatus,
    d0: Database,
    m1: MenuItem,
    t1: TaskStatus,
    ps1: ProjectStatus,
    d1: Database,
) -> bool {
    if m0 == MenuItem::Projects {
        let c0 = ps0.project_table_state.selected;
        let n = Some(d0.projects@.len());
        &&& ps1.project_table_state.selected == if down {
            stepped_down(c0, n)
        } else {
            stepped_up(c0, n)
        }
        &&& ps1.active_project_item == ps0.active_project_item
        &&& ps1.project_item == ps0.project_item
        &&& m1 == m0 && t1 == t0 && d1 == d0
    } else if m0 == MenuItem::Tasks {
        let c0 = t0.task_table_state.selected;
        let n = selected_task_count(d0, ps0.project_table_state);
        &&& t1.task_table_state.selected == if down {
            stepped_down(c0, n)
        } else {
            stepped_up(c0, n)
        }
        &&& t1.active_task_item == t0.active_task_item
        &&& t1.add_task_highlight == t0.add_task_highlight
        &&& t1.task_content == t0.task_content
        &&& m1 == m0 && ps1 == ps0 && d1 == d0
    } else {
        unchanged(m0, t0, ps0, d0, m1, t1, ps1, d1)
    }
}

/// Moves the cursor of the list in view one row down or up.
pub fn move_cursor(
    down: bool,
    active_menu_item: &mut MenuItem,
    task_status: &mut TaskStatus,
    project_status: &mut ProjectStatus,
    database: &mut Database,
)
    ensures
        move_step(
            down,
            *old(active_menu_item),
            *old(task_status),
            *old(project_status),
            *old(database),
            *final(active_menu_item),
            *final(task_status),
            *final(project_status),
            *final(database),
        ),
{
    match *active_menu_item {
        MenuItem::Projects => {
            let amount = database.projects.len();
            if amount >= 1 {
                if down {
                    navigate_down_projects(&mut project_status.project_table_state, amount);
                } else {
                    navigate_up_projects(&mut project_status.project_table_state, amount);
                }
            }
        },
        MenuItem::Tasks => {
            if down {
                navigate_down_tasks(
                    database,
                    &mut task_status.task_table_state,
                    &project_status.project_table_state,
                );
            } else {
                navigate_up_tasks(
                    database,
                    &mut task_status.task_table_state,
                    &project_status.project_table_state,
                );
            }
        },
        _ => {},
    }
}

/// What a key does, by view. In the add-task and add-project forms, Esc
/// leaves the form, characters and Backspace edit the focused field, Enter
/// submits, and in the add-task form Tab and Shift-Tab move the focus one
/// field forward and back. Elsewhere `q` quits, `h` and `l` move between
/// views, `p` and `a` open the forms, `d` deletes, and `j` and `k` move the
/// cursor. Every other key changes nothing. The result tells whether to go
/// on, and the remote call to make, if any.
pub open spec fn key_step(
    event: Key,
    color: crate::config::Color,
    m0: MenuItem,
    t0: TaskStatus,
    ps0: ProjectStatus,
    d0: Database,
    m1: MenuItem,
    t1: TaskStatus,
    ps1: ProjectStatus,
    d1: Database,
    exit: EventExit,
    call: Option<RemoteCall>,
) -> bool {
    if event == Key::Char('q') && !is_form(m0) {
        exit == EventExit::Break && call is None && unchanged(m0, t0, ps0, d0, m1, t1, ps1, d1)
    } else {
        &&& exit == EventExit::Continue
        &&& if is_form(m0) && event == Key::Esc {
            call is None && d1 == d0 && forms_reset(m1, t1, ps1, t0, ps0)
        } else if is_form(m0) && event is Char {
            call is None && m1 == m0 && d1 == d0 && pushed_to_field(event->Char_0, t0, ps0, t1, ps1)
        } else if is_form(m0) && event == Key::Backspace {
            call is None && m1 == m0 && d1 == d0 && erased_from_field(t0, ps0, t1, ps1)
        } else if m0 == MenuItem::AddTask && event == Key::Enter {
            submit_task_step(m0, t0, ps0, d0, m1, t1, ps1, d1, call)
        } else if m0 == MenuItem::AddProject && event == Key::Enter {
            submit_project_step(m0, t0, ps0, d0, m1, t1, ps1, d1, call)
        } else if m0 == MenuItem::AddTask && event == Key::Tab {
            &&& call is None && m1 == m0 && ps1 == ps0 && d1 == d0
            &&& focus_stepped(t0, t1, next_field(t0.active_task_item), color)
        } else if m0 == MenuItem::AddTask && event == Key::BackTab {
            &&& call is None && m1 == m0 && ps1 == ps0 && d1 == d0
            &&& focus_stepped(t0, t1, prev_field(t0.active_task_item), color)
        } else if event == Key::Char('h') {
            call is None && step_left_step(m0, t0, ps0, d0, m1, t1, ps1, d1)
        } else if event == Key::Char('l') {
            call is None && step_right_step(m0, t0, ps0, d0, m1, t1, ps1, d1)
        } else if event == Key::Char('p') {
            call is None && open_add_project_step(m0, t0, ps0, d0, m1, t1, ps1, d1)
        } else if event == Key::Char('a') {
            call is None && open_add_task_step(color, m0, t0, ps0, d0, m1, t1, ps1, d1)
        } else if event == Key::Char('d') && m0 == MenuItem::Tasks {
            delete_task_step(m0, t0, ps0, d0, m1, t1, ps1, d1, call)
        } else if event == Key::Char('d') && m0 == MenuItem::Projects {
            delete_project_step(m0, t0, ps0, d0, m1, t1, ps1, d1, call)
        } else if event == Key::Char('j') {
            call is None && move_step(true, m0, t0, ps0, d0, m1, t1, ps1, d1)
        } else if event == Key::Char('k') {
            call is None && move_step(false, m0, t0, ps0, d0, m1, t1, ps1, d1)
        } else {
            call is None && unchanged(m0, t0, ps0, d0, m1, t1, ps1, d1)
        }
    }
}

/// Applies one key to the state, and returns whether to go on and the
/// remote call to make, if any.
pub fn get_key_event(
    event: Key,
    active_menu_item: &mut MenuItem,
    task_status: &mut TaskStatus,
    project_status: &mut ProjectStatus,
    config: &Config,
    database: &mut Database,
) -> (r: (EventExit, Option<RemoteCall>))
    ensures
        key_step(
            event,
            config.color,
            *old(active_menu_item),
            *old(task_status),
            *old(project_status),
            *old(database),
            *final(active_menu_item),
            *final(task_status),
            *final(project_status),
            *final(database),
            r.0,
            r.1,
        ),
{
    let in_form = *active_menu_item == MenuItem::AddTask || *active_menu_item
        == MenuItem::AddProject;
    let adding_task = *active_menu_item == MenuItem::AddTask;
    let adding_project = *active_menu_item == MenuItem::AddProject;
    match event {
        Key::Esc if in_form => {
            cleanup(active_menu_item, task_status, project_status);
            (EventExit::Continue, None)
        },
        Key::Char(e) if in_form => {
            push_char_to_field(e, task_status, project_status);
            (EventExit::Continue, None)
        },
        Key::Backspace if in_form => {
            remove_char_from_field(task_status, project_status);
            (EventExit::Continue, None)
        },
        Key::Enter if adding_task => {
            let call = submit_task(active_menu_item, task_status, project_status, database);
            (EventExit::Continue, call)
        },
        Key::Enter if adding_project => {
            let call = submit_project(active_menu_item, task_status, project_status, database);
            (EventExit::Continue, call)
        },
        Key::Tab if adding_task => {
            change_active_add_task_input_field(task_status, config.color);
            (EventExit::Continue, None)
        },
        Key::BackTab if adding_task => {
            change_active_add_task_input_field_back(task_status, config.color);
            (EventExit::Continue, None)
        },
        Key::Char('q') => (EventExit::Break, None),
        Key::Char('h') => {
            step_left(active_menu_item, task_status, project_status, database);
            (EventExit::Continue, None)
        },
        Key::Char('l') => {
            step_right(active_menu_item, task_status, project_status, database);
            (EventExit::Continue, None)
        },
        Key::Char('p') => {
            open_add_project(active_menu_item, task_status, project_status, database);
            (EventExit::Continue, None)
        },
        Key::Char('a') => {
            open_add_task(active_menu_item, task_status, project_status, config, database);
            (EventExit::Continue, None)
        },
        Key::Char('d') => {
            let call = match *active_menu_item {
                MenuItem::Tasks => delete_selected_task(
                    active_menu_item,
                    task_status,
                    project_status,
                    database,
                ),
                MenuItem::Projects => delete_selected_project(
                    active_menu_item,
                    task_status,
                    project_status,
                    database,
                ),
                _ => None,
            };
            (EventExit::Continue, call)
        },
        Key::Char('j') => {
            move_cursor(true, active_menu_item, task_status, project_status, database);
            (EventExit::Continue, None)
        },
        Key::Char('k') => {
            move_cursor(false, active_menu_item, task_status, project_status, database);
            (EventExit::Continue, None)
        },
        _ => (EventExit::Continue, None),
    }
}

/// Pressing `d` on the first project of the list changes nothing and asks
/// for no remote call; on any later project it removes exactly that project
/// from the local list and asks for exactly one remote deletion, of its
/// identifier.
pub proof fn lemma_delete_project_key(
    color: crate::config::Color,
    t0: TaskStatus,
    ps0: ProjectStatus,
    d0: Database,
    m1: MenuItem,
    t1: TaskStatus,
    ps1: ProjectStatus,
    d1: Database,
    exit: EventExit,
    call: Option<RemoteCall>,
)
    requires
        ps0.project_table_state.selected is Some,
        key_step(
            Key::Char('d'),
            color,
            MenuItem::Projects,
            t0,
            ps0,
            d0,
            m1,
            t1,
            ps1,
            d1,
            exit,
            call,
        ),
    ensures
        ps0.project_table_state.selected == Some(0usize) ==> call is None && d1 == d0 && ps1 == ps0,
        ({
            let sel = ps0.project_table_state.selected.unwrap() as int;
            0 < sel < d0.projects@.len() ==> {
                &&& d1.projects@ == d0.projects@.remove(sel)
                &&& d1.tasks == d0.tasks
                &&& call matches Some(RemoteCall::DeleteProject(id)) && id@ == d0.projects@[sel].id@
            }
        }),
{
}

/// Pressing `l` in the project list while the selected project has no
/// tasks leaves the project list in view.
pub proof fn lemma_empty_project_not_entered(
    color: crate::config::Color,
    t0: TaskStatus,
    ps0: ProjectStatus,
    d0: Database,
    m1: MenuItem,
    t1: TaskStatus,
    ps1: ProjectStatus,
    d1: Database,
    exit: EventExit,
    call: Option<RemoteCall>,
)
    requires
        selected_task_count(d0, ps0.project_table_state) == Some(0nat),
        key_step(
            Key::Char('l'),
            color,
            MenuItem::Projects,
            t0,
            ps0,
            d0,
            m1,
            t1,
            ps1,
            d1,
            exit,
            call,
        ),
    ensures
        m1 == MenuItem::Projects,
        d1 == d0,
        call is None,
{
}

} // verus!
