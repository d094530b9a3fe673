//! The add-task form's state and the per-project view of the task list.
use vstd::prelude::*;
use vstd::utf8::{encode_utf8, is_char_boundary};

use crate::api::{Task, TaskContent};
use crate::config::Color;
use crate::navigation::Cursor;
use crate::text::{decimal_text, format_count, push_char, texts_view};

verus! {

/// Which field of the add-task form shows the highlight colour.
#[derive(Clone, Copy, Debug, PartialEq, Eq, Structural)]
pub struct AddTaskHighlight {
    pub name: Color,
    pub desc: Color,
    pub label: Color,
    pub prio: Color,
    pub due: Color,
}

impl Default for AddTaskHighlight {
    /// Every field drawn in white.
    fn default() -> (r: Self)
        ensures
            r == plain_highlight(),
    {
        AddTaskHighlight {
            name: Color::White,
            desc: Color::White,
            label: Color::White,
            prio: Color::White,
            due: Color::White,
        }
    }
}

pub open spec fn plain_highlight() -> AddTaskHighlight {
    AddTaskHighlight {
        name: Color::White,
        desc: Color::White,
        label: Color::White,
        prio: Color::White,
        due: Color::White,
    }
}

/// A field of the add-task form; `Empty` when none has the focus.
#[derive(Clone, Copy, Debug, PartialEq, Eq, Structural)]
pub enum TaskItem {
    Empty,
    Name,
    Desc,
    Prio,
    Label,
    Due,
}

/// The task list's cursor and the add-task form.
#[derive(Clone, Debug, PartialEq, Eq)]
pub struct TaskStatus {
    pub task_table_state: Cursor,
    pub active_task_item: TaskItem,
    pub add_task_highlight: AddTaskHighlight,
    pub task_content: TaskContent,
}

impl Default for TaskStatus {
    fn default() -> (r: Self)
        ensures
            r.task_table_state.selected is None,
            r.active_task_item == TaskItem::Empty,
            r.add_task_highlight == plain_highlight(),
            r.task_content.content@ == Seq::<char>::empty(),
            r.task_content.description@ == Seq::<char>::empty(),
            r.task_content.labels@ == Seq::<char>::empty(),
            r.task_content.priority@ == seq!['1'],
            r.task_content.due_string@ == Seq::<char>::empty(),
    {
        TaskStatus {
            task_table_state: Cursor { selected: None },
            active_task_item: TaskItem::Empty,
            add_task_highlight: AddTaskHighlight::default(),
            task_content: TaskContent::default(),
        }
    }
}

/// Sets the line-wrap offset once a field's text reaches `buffer_at` bytes.
pub fn add_buffer_if_len(str_len: usize, next_line_buffer: &mut u16, buffer_at: usize)
    ensures
        *final(next_line_buffer) == if str_len >= buffer_at {
            3
        } else {
            *old(next_line_buffer)
        },
{
    if str_len >= buffer_at {
        *next_line_buffer = 3;
    }
}

/// The column of the text cursor inside a field of `width` columns that
/// holds `text_len` bytes: the length of its last line, plus the line-wrap
/// offset once the text has reached the width.
pub fn field_cursor_offset(text_len: usize, width: usize) -> (r: usize)
    requires
        width > 0,
    ensures
        r == text_len % width + if text_len >= width {
            3usize
        } else {
            0usize
        },
{
    let mut next_line_buffer: u16 = 0;
    add_buffer_if_len(text_len, &mut next_line_buffer, width);
    assert((text_len / width) * width <= text_len) by (nonlinear_arith)
        requires
            width > 0,
    ;
    assert(text_len - (text_len / width) * width == text_len % width) by (nonlinear_arith)
        requires
            width > 0,
    ;
    assert(text_len >= width ==> (text_len / width) * width >= width) by (nonlinear_arith)
        requires
            width > 0,
    ;
    let last_line = text_len - (text_len / width) * width;
    last_line + next_line_buffer as usize
}

/// The byte offset at which a field of `str_len` bytes is cut when it is
/// shown in lines of `split_at` bytes: three bytes before its last full line.
pub open spec fn cut_offset(str_len: int, split_at: int) -> int {
    (str_len / split_at) * split_at - 3
}

/// Where `split_if_has_len` can cut `task` without underflow or splitting a character.
pub open spec fn can_cut(str_len: int, split_at: int, task: Seq<char>) -> bool {
    &&& split_at > 0
    &&& str_len >= split_at ==> cut_offset(str_len, split_at) >= 0 && is_char_boundary(
        encode_utf8(task),
        cut_offset(str_len, split_at),
    )
}

/// Keeps in `current` only the tail of `task` that a field of width
/// `split_at` shows, once the text has reached that width.
pub fn split_if_has_len(str_len: usize, split_at: usize, current: &mut String, task: String)
    requires
        can_cut(str_len as int, split_at as int, task@),
    ensures
        str_len >= split_at ==> encode_utf8(final(current)@) == encode_utf8(task@).subrange(
            cut_offset(str_len as int, split_at as int),
            encode_utf8(task@).len() as int,
        ),
        str_len < split_at ==> *final(current) == *old(current),
{
    if str_len >= split_at {
        assert((str_len / split_at) * split_at <= str_len) by (nonlinear_arith)
            requires
                split_at > 0,
        ;
        let cut = (str_len / split_at) * split_at - 3;
        let (_, second) = task.as_str().split_at(cut);
        *current = second.to_owned();
    }
}

/// The number of tasks in `tasks` that belong to the project `id`.
pub open spec fn tasks_in_project(tasks: Seq<Task>, id: Seq<char>) -> nat
    decreases tasks.len(),
{
    if tasks.len() == 0 {
        0
    } else {
        tasks_in_project(tasks.drop_last(), id) + if tasks.last().project_id@ == id {
            1nat
        } else {
            0nat
        }
    }
}

/// Counts the tasks that belong to the project `project_id`.
pub fn count_tasks_in_project(project_id: &String, tasks: &Vec<Task>) -> (r: usize)
    ensures
        r as nat == tasks_in_project(tasks@, project_id@),
{
    let mut counter: usize = 0;
    let mut i: usize = 0;
    while i < tasks.len()
        invariant
            i <= tasks.len(),
            counter as nat == tasks_in_project(tasks@.take(i as int), project_id@),
            counter <= i,
        decreases tasks.len() - i,
    {
        assert(tasks@.take(i + 1).drop_last() =~= tasks@.take(i as int));
        if *project_id == tasks[i].project_id {
            counter = counter + 1;
        }
        i = i + 1;
    }
    assert(tasks@.take(i as int) =~= tasks@);
    counter
}

/// The number of tasks in the project `project_id`, written in decimal.
pub fn get_task_from_project_id(project_id: String, task_list: &mut Vec<Task>) -> (r: String)
    ensures
        r@ == decimal_text(tasks_in_project(old(task_list)@, project_id@)),
        *final(task_list) == *old(task_list),
{
    let counter = count_tasks_in_project(&project_id, task_list);
    format_count(counter)
}

/// The lines a description takes in the task table: lines of 38
/// characters, where a last piece of at most three characters stays on the
/// line before it.
pub open spec fn description_lines(d: Seq<char>) -> Seq<Seq<char>>
    decreases d.len(),
{
    if d.len() == 0 {
        seq![]
    } else if d.len() <= 41 {
        seq![d]
    } else {
        seq![d.take(38)] + description_lines(d.skip(38))
    }
}

/// Labels joined by a comma and a space.
pub open spec fn joined_labels(labels: Seq<Seq<char>>) -> Seq<char>
    decreases labels.len(),
{
    if labels.len() == 0 {
        seq![]
    } else if labels.len() == 1 {
        labels[0]
    } else {
        joined_labels(labels.drop_last()) + seq![',', ' '] + labels.last()
    }
}

/// A due date-time as the task table shows it: when its eleventh character
/// is `T` (as in `2023-01-31T12:00:00`), every `T` becomes a space.
pub open spec fn shown_datetime(dt: Seq<char>) -> Seq<char> {
    if dt.len() > 10 && dt[10] == 'T' {
        dt.map_values(|c: char| if c == 'T' { ' ' } else { c })
    } else {
        dt
    }
}

/// The lines of a task's row in the task table: its content, its
/// description, its labels when it has any, and its due date-time when it
/// has one.
pub open spec fn row_lines(t: Task) -> Seq<Seq<char>> {
    let labels = if t.labels@.len() > 0 {
        seq![joined_labels(texts_view(t.labels@))]
    } else {
        seq![]
    };
    let due = match t.due {
        Some(d) => match d.datetime {
            Some(dt) => seq![shown_datetime(dt@)],
            None => seq![],
        },
        None => seq![],
    };
    seq![t.content@] + description_lines(t.description@) + labels + due
}

fn push_text(s: &mut String, t: &String)
    ensures
        final(s)@ == old(s)@ + t@,
{
    let n = t.as_str().unicode_len();
    let mut i: usize = 0;
    while i < n
        invariant
            i <= n,
            n == t@.len(),
            s@ == old(s)@ + t@.take(i as int),
        decreases n - i,
    {
        push_char(s, t.as_str().get_char(i));
        assert(t@.take(i + 1) =~= t@.take(i as int).push(t@[i as int]));
        i = i + 1;
    }
    assert(t@.take(n as int) =~= t@);
}

fn text_between(t: &String, from: usize, to: usize) -> (r: String)
    requires
        from <= to <= t@.len(),
    ensures
        r@ == t@.subrange(from as int, to as int),
{
    let mut r = String::new();
    let mut i: usize = from;
    while i < to
        invariant
            from <= i <= to,
            to <= t@.len(),
            r@ == t@.subrange(from as int, i as int),
        decreases to - i,
    {
        push_char(&mut r, t.as_str().get_char(i));
        assert(t@.subrange(from as int, i + 1) =~= t@.subrange(from as int, i as int).push(
            t@[i as int],
        ));
        i = i + 1;
    }
    r
}

proof fn lemma_description_lines_from(d: Seq<char>, i: int)
    requires
        0 <= i <= d.len(),
        d.len() - i > 41,
    ensures
        description_lines(d.skip(i)) == seq![d.subrange(i, i + 38)] + description_lines(
            d.skip(i + 38),
        ),
{
    assert(d.skip(i).take(38) =~= d.subrange(i, i + 38));
    assert(d.skip(i).skip(38) =~= d.skip(i + 38));
}

/// Appends the lines of a description to `lines`.
fn push_description_lines(lines: &mut Vec<String>, description: &String)
    ensures
        texts_view(final(lines)@) == texts_view(old(lines)@) + description_lines(description@),
{
    let n = description.as_str().unicode_len();
    let ghost d = description@;
    let mut i: usize = 0;
    assert(d.skip(0) =~= d);
    while n - i > 41
        invariant
            i <= n,
            n == d.len(),
            d == description@,
            texts_view(lines@) + description_lines(d.skip(i as int)) == texts_view(old(lines)@)
                + description_lines(d),
        decreases n - i,
    {
        proof {
            lemma_description_lines_from(d, i as int);
        }
        let piece = text_between(description, i, i + 38);
        let ghost before = texts_view(lines@);
        lines.push(piece);
        assert(texts_view(lines@) =~= before.push(d.subrange(i as int, i + 38)));
        assert(texts_view(lines@) + description_lines(d.skip(i + 38)) =~= before + (seq![
            d.subrange(i as int, i + 38),
        ] + description_lines(d.skip(i + 38))));
        i = i + 38;
    }
    if i < n {
        let piece = text_between(description, i, n);
        let ghost before = texts_view(lines@);
        lines.push(piece);
        assert(d.skip(i as int) =~= d.subrange(i as int, n as int));
        assert(texts_view(lines@) =~= before + description_lines(d.skip(i as int)));
    } else {
        assert(d.skip(i as int).len() == 0);
        assert(texts_view(lines@) =~= texts_view(lines@) + description_lines(d.skip(i as int)));
    }
}

fn join_labels(labels: &Vec<String>) -> (r: String)
    ensures
        r@ == joined_labels(texts_view(labels@)),
{
    let mut r = String::new();
    let mut i: usize = 0;
    while i < labels.len()
        invariant
            i <= labels@.len(),
            r@ == joined_labels(texts_view(labels@.take(i as int))),
        decreases labels@.len() - i,
    {
        let ghost prefix = texts_view(labels@.take(i + 1));
        assert(prefix.drop_last() =~= texts_view(labels@.take(i as int)));
        assert(prefix.last() == labels@[i as int]@);
        if i > 0 {
            push_char(&mut r, ',');
            push_char(&mut r, ' ');
        }
        push_text(&mut r, &labels[i]);
        proof {
            if i > 0 {
                assert(r@ =~= joined_labels(prefix.drop_last()) + seq![',', ' '] + prefix.last());
            } else {
                assert(prefix =~= seq![labels@[0]@]);
                assert(r@ =~= prefix[0]);
            }
        }
        i = i + 1;
    }
    assert(labels@.take(i as int) =~= labels@);
    r
}

fn show_datetime(dt: &String) -> (r: String)
    ensures
        r@ == shown_datetime(dt@),
{
    let n = dt.as_str().unicode_len();
    if !(n > 10 && dt.as_str().get_char(10) == 'T') {
        return dt.clone();
    }
    let mut r = String::new();
    let mut i: usize = 0;
    let ghost shown = shown_datetime(dt@);
    while i < n
        invariant
            i <= n,
            n == dt@.len(),
            shown.len() == n,
            forall|k: int| 0 <= k < n ==> #[trigger] shown[k] == if dt@[k] == 'T' {
                ' '
            } else {
                dt@[k]
            },
            r@ == shown.take(i as int),
        decreases n - i,
    {
        let c = dt.as_str().get_char(i);
        if c == 'T' {
            push_char(&mut r, ' ');
        } else {
            push_char(&mut r, c);
        }
        assert(shown.take(i + 1) =~= shown.take(i as int).push(shown[i as int]));
        i = i + 1;
    }
    assert(shown.take(n as int) =~= shown);
    r
}

/// The lines of a task's row in the task table.
pub fn task_row_lines(task: &Task) -> (r: Vec<String>)
    ensures
        texts_view(r@) == row_lines(*task),
{
    let mut lines: Vec<String> = Vec::new();
    lines.push(task.content.clone());
    assert(texts_view(lines@) =~= seq![task.content@]);
    push_description_lines(&mut lines, &task.description);
    if task.labels.len() > 0 {
        lines.push(join_labels(&task.labels));
    }
    match &task.due {
        Some(due) => match &due.datetime {
            Some(datetime) => lines.push(show_datetime(datetime)),
            None => {},
        },
        None => {},
    }
    assert(texts_view(lines@) =~= row_lines(*task));
    lines
}

} // verus!
