//! Typing into and erasing from the focused field of a form.
use vstd::prelude::*;

use crate::project::{ProjectItem, ProjectStatus};
use crate::task::{TaskItem, TaskStatus};
use crate::text::{clear_text, parse_unsigned, parsed_unsigned, pop_char, push_char};

verus! {

/// Priority text that the form keeps: an unsigned number from 1 to 4.
pub open spec fn is_priority_text(s: Seq<char>) -> bool {
    parsed_unsigned(s) matches Some(v) && 1 <= v <= 4
}

/// The priority text after typing `c`: kept when it still reads as a
/// priority, otherwise cleared entirely.
pub open spec fn priority_after_push(s: Seq<char>, c: char) -> Seq<char> {
    if is_priority_text(s.push(c)) {
        s.push(c)
    } else {
        Seq::empty()
    }
}

/// A text after erasing its last character, if it has one.
pub open spec fn erase_last(s: Seq<char>) -> Seq<char> {
    if s.len() > 0 {
        s.drop_last()
    } else {
        s
    }
}

/// `s` with `e` appended when it is the focused field, as it was otherwise.
pub open spec fn typed_if(focused: bool, s: Seq<char>, e: char) -> Seq<char> {
    if focused {
        s.push(e)
    } else {
        s
    }
}

/// `s` with its last character erased when it is the focused field, as it
/// was otherwise.
pub open spec fn erased_if(focused: bool, s: Seq<char>) -> Seq<char> {
    if focused {
        erase_last(s)
    } else {
        s
    }
}

/// The forms after typing `e`: the focused field of each form gains `e` at
/// its end (the priority field under the rule of `priority_after_push`), and
/// nothing else changes.
pub open spec fn pushed_to_field(
    e: char,
    t0: TaskStatus,
    ps0: ProjectStatus,
    t1: TaskStatus,
    ps1: ProjectStatus,
) -> bool {
    let f = t0.active_task_item;
    let (c0, c1) = (t0.task_content, t1.task_content);
    &&& t1.task_table_state == t0.task_table_state
    &&& t1.active_task_item == f
    &&& t1.add_task_highlight == t0.add_task_highlight
    &&& c1.content@ == typed_if(f == TaskItem::Name, c0.content@, e)
    &&& c1.description@ == typed_if(f == TaskItem::Desc, c0.description@, e)
    &&& c1.labels@ == typed_if(f == TaskItem::Label, c0.labels@, e)
    &&& c1.due_string@ == typed_if(f == TaskItem::Due, c0.due_string@, e)
    &&& c1.priority@ == if f == TaskItem::Prio {
        priority_after_push(c0.priority@, e)
    } else {
        c0.priority@
    }
    &&& ps1.project_table_state == ps0.project_table_state
    &&& ps1.active_project_item == ps0.active_project_item
    &&& ps1.project_item.name@ == typed_if(
        ps0.active_project_item == ProjectItem::Name,
        ps0.project_item.name@,
        e,
    )
}

/// The forms after a backspace: the focused field of each form loses its
/// last character, and nothing else changes.
pub open spec fn erased_from_field(
    t0: TaskStatus,
    ps0: ProjectStatus,
    t1: TaskStatus,
    ps1: ProjectStatus,
) -> bool {
    let f = t0.active_task_item;
    let (c0, c1) = (t0.task_content, t1.task_content);
    &&& t1.task_table_state == t0.task_table_state
    &&& t1.active_task_item == f
    &&& t1.add_task_highlight == t0.add_task_highlight
    &&& c1.content@ == erased_if(f == TaskItem::Name, c0.content@)
    &&& c1.description@ == erased_if(f == TaskItem::Desc, c0.description@)
    &&& c1.labels@ == erased_if(f == TaskItem::Label, c0.labels@)
    &&& c1.due_string@ == erased_if(f == TaskItem::Due, c0.due_string@)
    &&& c1.priority@ == erased_if(f == TaskItem::Prio, c0.priority@)
    &&& ps1.project_table_state == ps0.project_table_state
    &&& ps1.active_project_item == ps0.active_project_item
    &&& ps1.project_item.name@ == erased_if(
        ps0.active_project_item == ProjectItem::Name,
        ps0.project_item.name@,
    )
}

/// Typing into the priority field leaves it either empty or reading as a
/// priority from 1 to 4; a character that would make it read as anything
/// else empties it.
pub proof fn lemma_priority_after_push(s: Seq<char>, c: char)
    ensures
        priority_after_push(s, c).len() == 0 || is_priority_text(priority_after_push(s, c)),
        !is_priority_text(s.push(c)) ==> priority_after_push(s, c).len() == 0,
{
}

/// Whether the priority text reads as a priority from 1 to 4.
pub fn priority_in_range(s: &String) -> (r: bool)
    ensures
        r == is_priority_text(s@),
{
    match parse_unsigned(s.as_str()) {
        Some(v) => 1 <= v && v <= 4,
        None => false,
    }
}

/// Appends `e` to the focused field of each form; the priority field is
/// cleared whenever its text stops reading as a priority from 1 to 4.
pub fn push_char_to_field(e: char, task_status: &mut TaskStatus, project_status: &mut ProjectStatus)
    ensures
        pushed_to_field(
            e,
            *old(task_status),
            *old(project_status),
            *final(task_status),
            *final(project_status),
        ),
{
    let task_content = &mut task_status.task_content;
    match task_status.active_task_item {
        TaskItem::Name => push_char(&mut task_content.content, e),
        TaskItem::Desc => push_char(&mut task_content.description, e),
        TaskItem::Label => push_char(&mut task_content.labels, e),
        TaskItem::Due => push_char(&mut task_content.due_string, e),
        TaskItem::Prio => {
            push_char(&mut task_content.priority, e);
            if !priority_in_range(&task_content.priority) {
                clear_text(&mut task_content.priority);
            }
        },
        TaskItem::Empty => {},
    }
    match project_status.active_project_item {
        ProjectItem::Name => push_char(&mut project_status.project_item.name, e),
        ProjectItem::Empty => {},
    }
}

/// Erases the last character of the focused field of each form.
pub fn remove_char_from_field(task_status: &mut TaskStatus, project_status: &mut ProjectStatus)
    ensures
        erased_from_field(
            *old(task_status),
            *old(project_status),
            *final(task_status),
            *final(project_status),
        ),
{
    let task_content = &mut task_status.task_content;
    match task_status.active_task_item {
        TaskItem::Name => {
            pop_char(&mut task_content.content);
        },
        TaskItem::Desc => {
            pop_char(&mut task_content.description);
        },
        TaskItem::Label => {
            pop_char(&mut task_content.labels);
        },
        TaskItem::Due => {
            pop_char(&mut task_content.due_string);
        },
        TaskItem::Prio => {
            pop_char(&mut task_content.priority);
        },
        TaskItem::Empty => {},
    }
    match project_status.active_project_item {
        ProjectItem::Name => {
            pop_char(&mut project_status.project_item.name);
        },
        ProjectItem::Empty => {},
    }
}

} // verus!
