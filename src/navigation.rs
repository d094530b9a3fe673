//! Wrap-around movement of the list cursors, and of the focus through the
//! add-task form's fields.
use vstd::prelude::*;

use crate::config::Color;
use crate::menu::Database;
use crate::task::{
    count_tasks_in_project, plain_highlight, tasks_in_project, AddTaskHighlight, TaskItem,
    TaskStatus,
};

verus! {

/// The highlighted row of a list, if any.
#[derive(Clone, Copy, Debug, PartialEq, Eq, Structural)]
pub struct Cursor {
    pub selected: Option<usize>,
}

impl Cursor {
    pub fn selected(&self) -> (r: Option<usize>)
        ensures
            r == self.selected,
    {
        self.selected
    }

    pub fn select(&mut self, index: Option<usize>)
        ensures
            final(self).selected == index,
    {
        self.selected = index;
    }
}

/// The index after `i` in a list of `count` entries, wrapping to the first.
pub open spec fn next_index(i: int, count: int) -> int {
    if i >= count - 1 {
        0
    } else {
        i + 1
    }
}

/// The index before `i` in a list of `count` entries, wrapping to the last.
pub open spec fn prev_index(i: int, count: int) -> int {
    if i == 0 {
        count - 1
    } else {
        i - 1
    }
}

/// Moves one entry down a list of `count` entries, from the last back to the first.
pub fn advance(current: usize, count: usize) -> (r: usize)
    requires
        count >= 1,
    ensures
        r == next_index(current as int, count as int),
        current < count ==> r < count,
{
    if current >= count - 1 {
        0
    } else {
        current + 1
    }
}

/// Moves one entry up a list of `count` entries, from the first to the last.
pub fn retreat(current: usize, count: usize) -> (r: usize)
    requires
        count >= 1,
    ensures
        r == prev_index(current as int, count as int),
        current < count ==> r < count,
{
    if current == 0 {
        count - 1
    } else {
        current - 1
    }
}

/// Stepping down and then up returns to the start, for every valid index
/// of a non-empty list.
pub proof fn lemma_retreat_advance(i: int, count: int)
    requires
        count >= 1,
        0 <= i < count,
    ensures
        prev_index(next_index(i, count), count) == i,
        next_index(prev_index(i, count), count) == i,
{
}

/// A cursor after a step down a list of `count` rows; it stays where it is
/// when there is no cursor, no list, or an empty one.
pub open spec fn stepped_down(c: Option<usize>, count: Option<nat>) -> Option<usize> {
    match (c, count) {
        (Some(i), Some(n)) => if n > 0 {
            Some(next_index(i as int, n as int) as usize)
        } else {
            c
        },
        _ => c,
    }
}

/// A cursor after a step up a list of `count` rows; it stays where it is
/// when there is no cursor, no list, or an empty one.
pub open spec fn stepped_up(c: Option<usize>, count: Option<nat>) -> Option<usize> {
    match (c, count) {
        (Some(i), Some(n)) => if n > 0 {
            Some(prev_index(i as int, n as int) as usize)
        } else {
            c
        },
        _ => c,
    }
}

/// Moves the project cursor one row down, from the last row back to the first.
pub fn navigate_down_projects(project_list_state: &mut Cursor, project_amount: usize)
    requires
        project_amount >= 1,
    ensures
        final(project_list_state).selected == stepped_down(
            old(project_list_state).selected,
            Some(project_amount as nat),
        ),
{
    if let Some(selected) = project_list_state.selected() {
        project_list_state.select(Some(advance(selected, project_amount)));
    }
}

/// Moves the project cursor one row up, from the first row to the last.
pub fn navigate_up_projects(project_list_state: &mut Cursor, project_amount: usize)
    requires
        project_amount >= 1,
    ensures
        final(project_list_state).selected == stepped_up(
            old(project_list_state).selected,
            Some(project_amount as nat),
        ),
{
    if let Some(selected) = project_list_state.selected() {
        project_list_state.select(Some(retreat(selected, project_amount)));
    }
}

/// The number of tasks in the project under the cursor, if the cursor is
/// on a project.
pub open spec fn selected_task_count(database: Database, project_list_state: Cursor) -> Option<
    nat,
> {
    match project_list_state.selected {
        Some(p) => if p < database.projects@.len() {
            Some(tasks_in_project(database.tasks@, database.projects@[p as int].id@))
        } else {
            None
        },
        None => None,
    }
}

/// The number of tasks in the selected project, counted afresh.
pub fn selected_project_task_count(database: &Database, project_list_state: &Cursor) -> (r:
    Option<usize>)
    ensures
        r matches Some(n) ==> selected_task_count(*database, *project_list_state) == Some(
            n as nat,
        ),
        r is None ==> selected_task_count(*database, *project_list_state) is None,
{
    match project_list_state.selected() {
        Some(p) => if p < database.projects.len() {
            Some(count_tasks_in_project(&database.projects[p].id, &database.tasks))
        } else {
            None
        },
        None => None,
    }
}

/// Moves the task cursor one row down within the selected project's tasks,
/// wrapping to the first. Nothing moves when no project is selected or it
/// has no tasks.
pub fn navigate_down_tasks(database: &Database, task_list_state: &mut Cursor, project_list_state: &Cursor)
    ensures
        final(task_list_state).selected == stepped_down(
            old(task_list_state).selected,
            selected_task_count(*database, *project_list_state),
        ),
{
    if let Some(selected) = task_list_state.selected() {
        if let Some(amount_tasks) = selected_project_task_count(database, project_list_state) {
            if amount_tasks > 0 {
                task_list_state.select(Some(advance(selected, amount_tasks)));
            }
        }
    }
}

/// Moves the task cursor one row up within the selected project's tasks,
/// wrapping to the last. Nothing moves when no project is selected or it
/// has no tasks.
pub fn navigate_up_tasks(database: &Database, task_list_state: &mut Cursor, project_list_state: &Cursor)
    ensures
        final(task_list_state).selected == stepped_up(
            old(task_list_state).selected,
            selected_task_count(*database, *project_list_state),
        ),
{
    if let Some(selected) = task_list_state.selected() {
        if let Some(amount_tasks) = selected_project_task_count(database, project_list_state) {
            if amount_tasks > 0 {
                task_list_state.select(Some(retreat(selected, amount_tasks)));
            }
        }
    }
}

/// The field after `f` in the form's cycle Name, Description, Labels, Due,
/// Priority, and back to Name.
pub open spec fn next_field(f: TaskItem) -> TaskItem {
    match f {
        TaskItem::Name => TaskItem::Desc,
        TaskItem::Desc => TaskItem::Label,
        TaskItem::Label => TaskItem::Due,
        TaskItem::Due => TaskItem::Prio,
        TaskItem::Prio => TaskItem::Name,
        TaskItem::Empty => TaskItem::Empty,
    }
}

/// The field before `f` in the form's cycle.
pub open spec fn prev_field(f: TaskItem) -> TaskItem {
    match f {
        TaskItem::Name => TaskItem::Prio,
        TaskItem::Desc => TaskItem::Name,
        TaskItem::Label => TaskItem::Desc,
        TaskItem::Due => TaskItem::Label,
        TaskItem::Prio => TaskItem::Due,
        TaskItem::Empty => TaskItem::Empty,
    }
}

/// The form's colours when field `f` has the focus: `f` in `color`, the
/// others in white.
pub open spec fn highlight_for(f: TaskItem, color: Color) -> AddTaskHighlight {
    let h = plain_highlight();
    match f {
        TaskItem::Name => AddTaskHighlight { name: color, ..h },
        TaskItem::Desc => AddTaskHighlight { desc: color, ..h },
        TaskItem::Label => AddTaskHighlight { label: color, ..h },
        TaskItem::Due => AddTaskHighlight { due: color, ..h },
        TaskItem::Prio => AddTaskHighlight { prio: color, ..h },
        TaskItem::Empty => h,
    }
}

/// The add-task form after its focus steps to `target`, which is then
/// highlighted in `color`; a form without focus stays as it is.
pub open spec fn focus_stepped(t0: TaskStatus, t1: TaskStatus, target: TaskItem, color: Color) -> bool {
    if t0.active_task_item == TaskItem::Empty {
        t1 == t0
    } else {
        &&& t1.active_task_item == target
        &&& t1.add_task_highlight == highlight_for(target, color)
        &&& t1.task_table_state == t0.task_table_state
        &&& t1.task_content == t0.task_content
    }
}

fn focus_field(task_status: &mut TaskStatus, field: TaskItem, config_color: Color)
    ensures
        final(task_status).active_task_item == field,
        final(task_status).add_task_highlight == highlight_for(field, config_color),
        final(task_status).task_table_state == old(task_status).task_table_state,
        final(task_status).task_content == old(task_status).task_content,
{
    task_status.active_task_item = field;
    task_status.add_task_highlight = AddTaskHighlight::default();
    match field {
        TaskItem::Name => task_status.add_task_highlight.name = config_color,
        TaskItem::Desc => task_status.add_task_highlight.desc = config_color,
        TaskItem::Label => task_status.add_task_highlight.label = config_color,
        TaskItem::Due => task_status.add_task_highlight.due = config_color,
        TaskItem::Prio => task_status.add_task_highlight.prio = config_color,
        TaskItem::Empty => {},
    }
}

/// Moves the add-task form's focus one field forward and highlights it.
/// Nothing changes while no field has the focus.
pub fn change_active_add_task_input_field(task_status: &mut TaskStatus, config_color: Color)
    ensures
        focus_stepped(
            *old(task_status),
            *final(task_status),
            next_field(old(task_status).active_task_item),
            config_color,
        ),
{
    let current = task_status.active_task_item;
    let next = match current {
        TaskItem::Name => TaskItem::Desc,
        TaskItem::Desc => TaskItem::Label,
        TaskItem::Label => TaskItem::Due,
        TaskItem::Due => TaskItem::Prio,
        TaskItem::Prio => TaskItem::Name,
        TaskItem::Empty => TaskItem::Empty,
    };
    if current != TaskItem::Empty {
        focus_field(task_status, next, config_color);
    }
}

/// Moves the add-task form's focus one field back and highlights it.
/// Nothing changes while no field has the focus.
pub fn change_active_add_task_input_field_back(task_status: &mut TaskStatus, config_color: Color)
    ensures
        focus_stepped(
            *old(task_status),
            *final(task_status),
            prev_field(old(task_status).active_task_item),
            config_color,
        ),
{
    let current = task_status.active_task_item;
    let prev = match current {
        TaskItem::Name => TaskItem::Prio,
        TaskItem::Desc => TaskItem::Name,
        TaskItem::Label => TaskItem::Desc,
        TaskItem::Due => TaskItem::Label,
        TaskItem::Prio => TaskItem::Due,
        TaskItem::Empty => TaskItem::Empty,
    };
    if current != TaskItem::Empty {
        focus_field(task_status, prev, config_color);
    }
}

/// The form's fields form one cycle of five: five steps forward from any
/// field return to it, and a step forward followed by a step back (or back
/// then forward) returns to where it started.
pub proof fn lemma_field_cycle(f: TaskItem)
    requires
        f != TaskItem::Empty,
    ensures
        next_field(next_field(next_field(next_field(next_field(f))))) == f,
        prev_field(next_field(f)) == f,
        next_field(prev_field(f)) == f,
        next_field(f) != f,
{
}

/// A step forward and then a step back through the add-task form's fields
/// returns the focus and the highlight to where they were, and leaves the
/// draft as it was.
pub proof fn lemma_focus_forward_back(t0: TaskStatus, t1: TaskStatus, t2: TaskStatus, color: Color)
    requires
        t0.active_task_item != TaskItem::Empty,
        focus_stepped(t0, t1, next_field(t0.active_task_item), color),
        focus_stepped(t1, t2, prev_field(t1.active_task_item), color),
    ensures
        t2.active_task_item == t0.active_task_item,
        t2.add_task_highlight == highlight_for(t0.active_task_item, color),
        t2.task_content == t0.task_content,
        t2.task_table_state == t0.task_table_state,
{
    lemma_field_cycle(t0.active_task_item);
}

/// Five steps forward through the add-task form's fields return the focus
/// to where it started, with the draft as it was.
pub proof fn lemma_focus_five_forward(
    t0: TaskStatus,
    t1: TaskStatus,
    t2: TaskStatus,
    t3: TaskStatus,
    t4: TaskStatus,
    t5: TaskStatus,
    color: Color,
)
    requires
        t0.active_task_item != TaskItem::Empty,
        focus_stepped(t0, t1, next_field(t0.active_task_item), color),
        focus_stepped(t1, t2, next_field(t1.active_task_item), color),
        focus_stepped(t2, t3, next_field(t2.active_task_item), color),
        focus_stepped(t3, t4, next_field(t3.active_task_item), color),
        focus_stepped(t4, t5, next_field(t4.active_task_item), color),
    ensures
        t5.active_task_item == t0.active_task_item,
        t5.add_task_highlight == highlight_for(t0.active_task_item, color),
        t5.task_content == t0.task_content,
{
    lemma_field_cycle(t0.active_task_item);
}

} // verus!
