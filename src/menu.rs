//! The views of the interface and the local store of projects and tasks.
use vstd::prelude::*;

use crate::api::{PostProject, Project, Task, TaskContent};
use crate::project::{ProjectItem, ProjectStatus};
use crate::task::{plain_highlight, AddTaskHighlight, TaskItem, TaskStatus};

verus! {

/// The view the interface shows.
#[derive(Clone, Copy, Debug, PartialEq, Eq, Structural)]
pub enum MenuItem {
    Home,
    Projects,
    Tasks,
    AddProject,
    AddTask,
}

/// The position of a view's tab in the menu bar.
pub open spec fn menu_position(m: MenuItem) -> usize {
    match m {
        MenuItem::Home => 0,
        MenuItem::Projects => 1,
        MenuItem::Tasks => 2,
        MenuItem::AddTask => 3,
        MenuItem::AddProject => 4,
    }
}

impl From<MenuItem> for usize {
    fn from(input: MenuItem) -> (r: usize)
        ensures
            r == menu_position(input),
    {
        match input {
            MenuItem::Home => 0,
            MenuItem::Projects => 1,
            MenuItem::Tasks => 2,
            MenuItem::AddTask => 3,
            MenuItem::AddProject => 4,
        }
    }
}

impl vstd::std_specs::convert::FromSpecImpl<MenuItem> for usize {
    open spec fn obeys_from_spec() -> bool {
        true
    }

    open spec fn from_spec(v: MenuItem) -> usize {
        menu_position(v)
    }
}

/// Lexicographic order of texts by character, which is the order of `String`.
pub open spec fn text_le(a: Seq<char>, b: Seq<char>) -> bool
    decreases a.len(),
{
    if a.len() == 0 {
        true
    } else if b.len() == 0 {
        false
    } else if a[0] != b[0] {
        a[0] < b[0]
    } else {
        text_le(a.drop_first(), b.drop_first())
    }
}

/// Whether `a` comes no later than `b` in the order of texts.
pub fn text_less_eq(a: &String, b: &String) -> (r: bool)
    ensures
        r == text_le(a@, b@),
{
    let n = a.as_str().unicode_len();
    let m = b.as_str().unicode_len();
    let mut i: usize = 0;
    assert(a@.skip(0) =~= a@);
    assert(b@.skip(0) =~= b@);
    while i < n && i < m
        invariant
            i <= n,
            i <= m,
            n == a@.len(),
            m == b@.len(),
            text_le(a@, b@) == text_le(a@.skip(i as int), b@.skip(i as int)),
        decreases n - i,
    {
        let x = a.as_str().get_char(i);
        let y = b.as_str().get_char(i);
        assert(a@.skip(i as int)[0] == x);
        assert(b@.skip(i as int)[0] == y);
        if x != y {
            return x < y;
        }
        assert(a@.skip(i as int).drop_first() =~= a@.skip(i + 1));
        assert(b@.skip(i as int).drop_first() =~= b@.skip(i + 1));
        i = i + 1;
    }
    i == n
}

/// Where a task with project id `key` goes in `sorted`: after the last task
/// whose project id is not greater.
pub open spec fn insert_position(sorted: Seq<Task>, key: Seq<char>) -> int
    decreases sorted.len(),
{
    if sorted.len() == 0 || text_le(sorted.last().project_id@, key) {
        sorted.len() as int
    } else {
        insert_position(sorted.drop_last(), key)
    }
}

proof fn lemma_insert_position_bound(sorted: Seq<Task>, key: Seq<char>)
    ensures
        0 <= insert_position(sorted, key) <= sorted.len(),
    decreases sorted.len(),
{
    if sorted.len() > 0 {
        lemma_insert_position_bound(sorted.drop_last(), key);
    }
}

/// The tasks sorted by project id, tasks of one project keeping their
/// relative order: each task in turn is placed after every earlier task
/// whose project id is not greater than its own.
pub open spec fn sorted_by_project(tasks: Seq<Task>) -> Seq<Task>
    decreases tasks.len(),
{
    if tasks.len() == 0 {
        Seq::empty()
    } else {
        let sorted = sorted_by_project(tasks.drop_last());
        let t = tasks.last();
        sorted.insert(insert_position(sorted, t.project_id@), t)
    }
}

proof fn lemma_sorted_len(tasks: Seq<Task>)
    ensures
        sorted_by_project(tasks).len() == tasks.len(),
    decreases tasks.len(),
{
    if tasks.len() > 0 {
        lemma_sorted_len(tasks.drop_last());
        lemma_insert_position_bound(
            sorted_by_project(tasks.drop_last()),
            tasks.last().project_id@,
        );
    }
}

/// Every task comes no later in the order of project ids than those after it.
pub open spec fn sorted_by_id(tasks: Seq<Task>) -> bool {
    forall|i: int, j: int|
        0 <= i < j < tasks.len() ==> text_le(
            #[trigger] tasks[i].project_id@,
            #[trigger] tasks[j].project_id@,
        )
}

proof fn lemma_text_le_total(a: Seq<char>, b: Seq<char>)
    ensures
        text_le(a, b) || text_le(b, a),
    decreases a.len(),
{
    if a.len() > 0 && b.len() > 0 {
        if a[0] == b[0] {
            lemma_text_le_total(a.drop_first(), b.drop_first());
        }
    }
}

proof fn lemma_text_le_transitive(a: Seq<char>, b: Seq<char>, c: Seq<char>)
    requires
        text_le(a, b),
        text_le(b, c),
    ensures
        text_le(a, c),
    decreases a.len(),
{
    if a.len() > 0 && b.len() > 0 && c.len() > 0 && a[0] == b[0] && b[0] == c[0] {
        lemma_text_le_transitive(a.drop_first(), b.drop_first(), c.drop_first());
    }
}

proof fn lemma_insert_position_split(sorted: Seq<Task>, key: Seq<char>)
    ensures
        forall|i: int|
            insert_position(sorted, key) <= i < sorted.len() ==> !text_le(
                #[trigger] sorted[i].project_id@,
                key,
            ),
        insert_position(sorted, key) > 0 ==> text_le(
            sorted[insert_position(sorted, key) - 1].project_id@,
            key,
        ),
    decreases sorted.len(),
{
    if sorted.len() > 0 && !text_le(sorted.last().project_id@, key) {
        let rest = sorted.drop_last();
        lemma_insert_position_split(rest, key);
        lemma_insert_position_bound(rest, key);
        assert forall|i: int| insert_position(sorted, key) <= i < sorted.len() implies !text_le(
            #[trigger] sorted[i].project_id@,
            key,
        ) by {
            if i < rest.len() {
                assert(sorted[i] == rest[i]);
            }
        }
    }
}

proof fn lemma_insert_keeps_sorted(sorted: Seq<Task>, t: Task)
    requires
        sorted_by_id(sorted),
    ensures
        sorted_by_id(sorted.insert(insert_position(sorted, t.project_id@), t)),
{
    let key = t.project_id@;
    let p = insert_position(sorted, key);
    lemma_insert_position_bound(sorted, key);
    lemma_insert_position_split(sorted, key);
    let r = sorted.insert(p, t);
    assert forall|i: int, j: int| 0 <= i < j < r.len() implies text_le(
        #[trigger] r[i].project_id@,
        #[trigger] r[j].project_id@,
    ) by {
        if i < p && j == p {
            if i < p - 1 {
                lemma_text_le_transitive(
                    sorted[i].project_id@,
                    sorted[p - 1].project_id@,
                    key,
                );
            }
        } else if i == p && j > p {
            lemma_text_le_total(sorted[j - 1].project_id@, key);
        } else if i < p && j > p {
            assert(r[j] == sorted[j - 1]);
        } else if i > p {
            assert(r[i] == sorted[i - 1] && r[j] == sorted[j - 1]);
        }
    }
}

/// The tasks sorted by project id are in ascending order of project id and
/// are the same tasks, each as often as before.
pub proof fn lemma_sorted_by_project(tasks: Seq<Task>)
    ensures
        sorted_by_id(sorted_by_project(tasks)),
        sorted_by_project(tasks).to_multiset() == tasks.to_multiset(),
    decreases tasks.len(),
{
    broadcast use vstd::seq_lib::group_to_multiset_ensures;

    if tasks.len() == 0 {
        assert(sorted_by_project(tasks) =~= tasks);
    } else {
        let rest = tasks.drop_last();
        let t = tasks.last();
        lemma_sorted_by_project(rest);
        lemma_insert_keeps_sorted(sorted_by_project(rest), t);
        lemma_insert_position_bound(sorted_by_project(rest), t.project_id@);
        assert(rest.push(t) =~= tasks);
    }
}

/// Sorts tasks by project id, keeping the order of tasks within a project.
pub fn sort_by_project(tasks: Vec<Task>) -> (r: Vec<Task>)
    ensures
        r@ == sorted_by_project(tasks@),
{
    let ghost input = tasks@;
    let total = tasks.len();
    let mut rest = tasks;
    let mut out: Vec<Task> = Vec::new();
    let mut k: usize = 0;
    while rest.len() > 0
        invariant
            k <= input.len(),
            input.len() == total,
            rest@ == input.skip(k as int),
            out@ == sorted_by_project(input.take(k as int)),
        decreases rest.len(),
    {
        let t = rest.remove(0);
        proof {
            assert(input.take(k + 1).drop_last() =~= input.take(k as int));
            assert(input.take(k + 1).last() == t);
            assert(rest@ =~= input.skip(k + 1));
            lemma_sorted_len(input.take(k as int));
        }
        let mut j = out.len();
        let mut found = false;
        assert(out@.take(j as int) =~= out@);
        while j > 0 && !found
            invariant
                j <= out.len(),
                insert_position(out@, t.project_id@) == insert_position(
                    out@.take(j as int),
                    t.project_id@,
                ),
                found ==> j > 0 && text_le(out@[j - 1].project_id@, t.project_id@),
            decreases j + if found { 0int } else { 1int },
        {
            if text_less_eq(&out[j - 1].project_id, &t.project_id) {
                found = true;
            } else {
                assert(out@.take(j as int).drop_last() =~= out@.take(j - 1));
                j = j - 1;
            }
        }
        assert(insert_position(out@, t.project_id@) == j) by {
            if j > 0 {
                assert(out@.take(j as int).last() == out@[j - 1]);
            }
        }
        out.insert(j, t);
        k = k + 1;
    }
    assert(input.take(k as int) =~= input);
    out
}

/// The local mirror of the remote projects and tasks.
#[derive(Clone, Debug, PartialEq, Eq)]
pub struct Database {
    pub projects: Vec<Project>,
    pub tasks: Vec<Task>,
}

impl Default for Database {
    /// One placeholder project named `Loading...` and no tasks, until the
    /// first refresh.
    fn default() -> (r: Self)
        ensures
            r.projects@.len() == 1,
            r.projects@[0].name@ == "Loading..."@,
            r.projects@[0].id@ == Seq::<char>::empty(),
            r.tasks@.len() == 0,
    {
        Database { projects: vec![Project::name("Loading...")], tasks: Vec::new() }
    }
}

impl Database {
    /// Puts a freshly fetched project list in place of the whole list.
    pub fn replace_projects(&mut self, projects: Vec<Project>)
        ensures
            final(self).projects@ == projects@,
            final(self).tasks == old(self).tasks,
    {
        self.projects = projects;
    }

    /// Puts a freshly fetched task list in place of the whole list, sorted
    /// by project id.
    pub fn replace_tasks(&mut self, tasks: Vec<Task>)
        ensures
            final(self).tasks@ == sorted_by_project(tasks@),
            sorted_by_id(final(self).tasks@),
            final(self).tasks@.to_multiset() == tasks@.to_multiset(),
            final(self).projects == old(self).projects,
    {
        self.tasks = sort_by_project(tasks);
        proof {
            lemma_sorted_by_project(tasks@);
        }
    }

    /// Shows a project before the remote service has confirmed it.
    pub fn append_project(&mut self, project: Project)
        ensures
            final(self).projects@ == old(self).projects@.push(project),
            final(self).tasks == old(self).tasks,
    {
        self.projects.push(project);
    }

    /// Shows a task before the remote service has confirmed it.
    pub fn append_task(&mut self, task: Task)
        ensures
            final(self).tasks@ == old(self).tasks@.push(task),
            final(self).projects == old(self).projects,
    {
        self.tasks.push(task);
    }

    /// Drops the project at `index` from the local list.
    pub fn remove_project_at(&mut self, index: usize) -> (r: Project)
        requires
            index < old(self).projects@.len(),
        ensures
            r == old(self).projects@[index as int],
            final(self).projects@ == old(self).projects@.remove(index as int),
            final(self).tasks == old(self).tasks,
    {
        self.projects.remove(index)
    }

    /// Drops the task at `index` from the local list.
    pub fn remove_task_at(&mut self, index: usize) -> (r: Task)
        requires
            index < old(self).tasks@.len(),
        ensures
            r == old(self).tasks@[index as int],
            final(self).tasks@ == old(self).tasks@.remove(index as int),
            final(self).projects == old(self).projects,
    {
        self.tasks.remove(index)
    }
}

/// The forms' state after leaving them: both drafts emptied, no field
/// focused, nothing highlighted, and the project list shown.
pub open spec fn forms_reset(
    menu: MenuItem,
    task_status: TaskStatus,
    project_status: ProjectStatus,
    old_task_status: TaskStatus,
    old_project_status: ProjectStatus,
) -> bool {
    &&& menu == MenuItem::Projects
    &&& task_status.task_table_state == old_task_status.task_table_state
    &&& task_status.active_task_item == TaskItem::Empty
    &&& task_status.add_task_highlight == plain_highlight()
    &&& task_status.task_content.content@ == Seq::<char>::empty()
    &&& task_status.task_content.description@ == Seq::<char>::empty()
    &&& task_status.task_content.labels@ == Seq::<char>::empty()
    &&& task_status.task_content.priority@ == seq!['1']
    &&& task_status.task_content.due_string@ == Seq::<char>::empty()
    &&& project_status.project_table_state == old_project_status.project_table_state
    &&& project_status.active_project_item == ProjectItem::Empty
    &&& project_status.project_item.name@ == Seq::<char>::empty()
}

/// Leaves the add-task or add-project form, discarding its draft.
pub fn cleanup(
    active_menu_item: &mut MenuItem,
    task_status: &mut TaskStatus,
    project_status: &mut ProjectStatus,
)
    ensures
        forms_reset(
            *final(active_menu_item),
            *final(task_status),
            *final(project_status),
            *old(task_status),
            *old(project_status),
        ),
{
    *active_menu_item = MenuItem::Projects;
    task_status.task_content = TaskContent::default();
    task_status.add_task_highlight = AddTaskHighlight::default();
    task_status.active_task_item = TaskItem::Empty;
    project_status.project_item = PostProject::default();
    project_status.active_project_item = ProjectItem::Empty;
}

} // verus!
