use taskboard::api::{Due, PostProject, Project, Task, TaskContent};
use taskboard::menu::{Database, MenuItem};
use taskboard::task::{add_buffer_if_len, get_task_from_project_id, split_if_has_len};

fn task_in(project_id: &str, id: &str) -> Task {
    Task {
        creator_id: String::new(),
        created_at: String::new(),
        assignee_id: None,
        assigner_id: None,
        comment_count: 0,
        is_completed: false,
        content: String::new(),
        description: String::new(),
        id: id.to_string(),
        due: None,
        labels: vec![],
        order: 0,
        priority: 1,
        project_id: project_id.to_string(),
        section_id: None,
        parent_id: None,
        due_string: None,
        url: String::new(),
    }
}

fn ids(tasks: &[Task]) -> Vec<&str> {
    tasks.iter().map(|t| t.id.as_str()).collect()
}

#[test]
fn placeholder_project_has_only_a_name() {
    let p = Project::name("Groceries");
    assert_eq!(p.name, "Groceries");
    assert_eq!(p.id, "");
    assert_eq!(p.parent_id, Some(String::new()));
    assert!(!p.is_inbox_project && !p.is_favorite && !p.is_shared && !p.is_team_inbox);
    assert_eq!(p.order, 0);
}

#[test]
fn drafted_task_carries_the_draft() {
    let draft = TaskContent {
        content: "Buy milk".to_string(),
        description: "two litres".to_string(),
        labels: "a, b ,c".to_string(),
        priority: "3".to_string(),
        due_string: "tomorrow".to_string(),
    };
    let t = Task::temp(draft, "work".to_string());
    assert_eq!(t.content, "Buy milk");
    assert_eq!(t.description, "two litres");
    assert_eq!(t.labels, vec!["a".to_string(), "b".to_string(), "c".to_string()]);
    assert_eq!(t.priority, 3);
    assert_eq!(t.project_id, "work");
    assert_eq!(t.due_string, Some("tomorrow".to_string()));
    let due = t.due.unwrap();
    assert_eq!(due.datetime, Some("tomorrow".to_string()));
    assert_eq!(due.date, None);
    assert_eq!(t.id, "");
    assert!(!t.is_completed);
}

#[test]
fn empty_drafts() {
    let draft = TaskContent::default();
    assert_eq!(draft.priority, "1");
    assert_eq!(draft.content, "");
    assert_eq!(PostProject::default().name, "");
    let due = Due::default();
    assert!(due.date.is_none() && due.datetime.is_none() && due.string.is_none());
}

#[test]
fn store_starts_with_a_loading_project() {
    let db = Database::default();
    assert_eq!(db.projects.len(), 1);
    assert_eq!(db.projects[0].name, "Loading...");
    assert!(db.tasks.is_empty());
}

#[test]
fn refresh_sorts_tasks_by_project_keeping_order() {
    let mut db = Database::default();
    db.replace_tasks(vec![
        task_in("b", "1"),
        task_in("a", "2"),
        task_in("c", "3"),
        task_in("a", "4"),
        task_in("b", "5"),
        task_in("", "6"),
    ]);
    assert_eq!(ids(&db.tasks), vec!["6", "2", "4", "1", "5", "3"]);
    assert_eq!(db.projects.len(), 1);
}

#[test]
fn refresh_replaces_the_whole_project_list() {
    let mut db = Database::default();
    db.append_project(Project::name("pending"));
    let mut inbox = Project::name("Inbox");
    inbox.id = "100".to_string();
    db.replace_projects(vec![inbox]);
    assert_eq!(db.projects.len(), 1);
    assert_eq!(db.projects[0].id, "100");
}

#[test]
fn local_appends_and_removals() {
    let mut db = Database { projects: vec![], tasks: vec![] };
    db.append_task(task_in("a", "1"));
    db.append_task(task_in("a", "2"));
    db.append_project(Project::name("x"));
    assert_eq!(ids(&db.tasks), vec!["1", "2"]);
    let removed = db.remove_task_at(0);
    assert_eq!(removed.id, "1");
    assert_eq!(ids(&db.tasks), vec!["2"]);
    let gone = db.remove_project_at(0);
    assert_eq!(gone.name, "x");
    assert!(db.projects.is_empty());
}

#[test]
fn task_count_of_a_project_as_text() {
    let mut tasks = vec![task_in("a", "1"), task_in("b", "2"), task_in("a", "3")];
    assert_eq!(get_task_from_project_id("a".to_string(), &mut tasks), "2");
    assert_eq!(get_task_from_project_id("c".to_string(), &mut tasks), "0");
    assert_eq!(tasks.len(), 3);
}

#[test]
fn menu_positions() {
    let positions: Vec<usize> = [
        MenuItem::Home,
        MenuItem::Projects,
        MenuItem::Tasks,
        MenuItem::AddTask,
        MenuItem::AddProject,
    ]
    .into_iter()
    .map(usize::from)
    .collect();
    assert_eq!(positions, vec![0, 1, 2, 3, 4]);
}

#[test]
fn line_buffer_once_width_reached() {
    let mut buffer: u16 = 0;
    add_buffer_if_len(39, &mut buffer, 40);
    assert_eq!(buffer, 0);
    add_buffer_if_len(40, &mut buffer, 40);
    assert_eq!(buffer, 3);
}

#[test]
fn long_field_shows_its_tail() {
    let text = "a".repeat(45);
    let mut current = text.clone();
    split_if_has_len(45, 40, &mut current, text.clone());
    assert_eq!(current, "a".repeat(8));
    let short = "abc".to_string();
    let mut kept = short.clone();
    split_if_has_len(3, 40, &mut kept, short);
    assert_eq!(kept, "abc");
}
