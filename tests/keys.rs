use taskboard::api::{Project, Task};
use taskboard::config::{Color, Config};
use taskboard::input::{push_char_to_field, remove_char_from_field};
use taskboard::key_events::{
    combined_task_index, get_key_event, EventExit, Key, RemoteCall,
};
use taskboard::menu::{Database, MenuItem};
use taskboard::project::{ProjectItem, ProjectStatus};
use taskboard::task::{TaskItem, TaskStatus};

fn task_in(project_id: &str, id: &str) -> Task {
    Task {
        creator_id: String::new(),
        created_at: String::new(),
        assignee_id: None,
        assigner_id: None,
        comment_count: 0,
        is_completed: false,
        content: String::new(),
        description: String::new(),
        id: id.to_string(),
        due: None,
        labels: vec![],
        order: 0,
        priority: 1,
        project_id: project_id.to_string(),
        section_id: None,
        parent_id: None,
        due_string: None,
        url: String::new(),
    }
}

fn project_with_id(id: &str) -> Project {
    let mut p = Project::name(id);
    p.id = id.to_string();
    p
}

struct Ui {
    menu: MenuItem,
    tasks: TaskStatus,
    projects: ProjectStatus,
    config: Config,
    db: Database,
}

impl Ui {
    fn new(db: Database) -> Ui {
        let mut tasks = TaskStatus::default();
        tasks.task_table_state.select(Some(0));
        let mut projects = ProjectStatus::default();
        projects.project_table_state.select(Some(0));
        Ui {
            menu: MenuItem::Projects,
            tasks,
            projects,
            config: Config { token: "abc123".to_string(), color: Color::Rgb(210, 39, 48) },
            db,
        }
    }

    fn press(&mut self, key: Key) -> (EventExit, Option<RemoteCall>) {
        get_key_event(
            key,
            &mut self.menu,
            &mut self.tasks,
            &mut self.projects,
            &self.config,
            &mut self.db,
        )
    }

    fn type_text(&mut self, text: &str) {
        for c in text.chars() {
            self.press(Key::Char(c));
        }
    }
}

fn two_projects() -> Database {
    Database {
        projects: vec![project_with_id("inbox"), project_with_id("work")],
        tasks: vec![
            task_in("inbox", "t0"),
            task_in("inbox", "t1"),
            task_in("work", "t2"),
            task_in("work", "t3"),
            task_in("work", "t4"),
        ],
    }
}

#[test]
fn combined_index_skips_earlier_projects() {
    let db = two_projects();
    assert_eq!(combined_task_index(&db, 1, 1), Some(3));
    assert_eq!(combined_task_index(&db, 0, 1), Some(1));
    assert_eq!(combined_task_index(&db, 1, 3), None);
    assert_eq!(combined_task_index(&db, 0, 0), Some(0));
    assert_eq!(combined_task_index(&db, 7, 0), None);
}

#[test]
fn deleting_first_project_is_refused() {
    let mut ui = Ui::new(two_projects());
    let (exit, call) = ui.press(Key::Char('d'));
    assert_eq!(exit, EventExit::Continue);
    assert_eq!(call, None);
    assert_eq!(ui.db, two_projects());
    assert_eq!(ui.projects.project_table_state.selected(), Some(0));
}

#[test]
fn deleting_later_project_removes_it() {
    let mut ui = Ui::new(two_projects());
    ui.press(Key::Char('j'));
    assert_eq!(ui.projects.project_table_state.selected(), Some(1));
    let (_, call) = ui.press(Key::Char('d'));
    assert_eq!(call, Some(RemoteCall::DeleteProject("work".to_string())));
    assert_eq!(ui.db.projects.len(), 1);
    assert_eq!(ui.db.projects[0].id, "inbox");
    assert_eq!(ui.db.tasks.len(), 5);
    assert_eq!(ui.projects.project_table_state.selected(), Some(0));
}

#[test]
fn deleting_task_uses_combined_index() {
    let mut ui = Ui::new(two_projects());
    ui.press(Key::Char('j'));
    ui.press(Key::Char('l'));
    assert_eq!(ui.menu, MenuItem::Tasks);
    ui.press(Key::Char('j'));
    assert_eq!(ui.tasks.task_table_state.selected(), Some(1));
    let (_, call) = ui.press(Key::Char('d'));
    assert_eq!(call, Some(RemoteCall::DeleteTask("t3".to_string())));
    let left: Vec<&str> = ui.db.tasks.iter().map(|t| t.id.as_str()).collect();
    assert_eq!(left, vec!["t0", "t1", "t2", "t4"]);
    assert_eq!(ui.tasks.task_table_state.selected(), Some(0));
    assert_eq!(ui.menu, MenuItem::Tasks);
}

#[test]
fn deleting_last_task_of_project_returns_to_projects() {
    let db = Database {
        projects: vec![project_with_id("inbox"), project_with_id("work")],
        tasks: vec![task_in("inbox", "t0"), task_in("work", "t1")],
    };
    let mut ui = Ui::new(db);
    ui.press(Key::Char('j'));
    ui.press(Key::Char('l'));
    assert_eq!(ui.menu, MenuItem::Tasks);
    let (_, call) = ui.press(Key::Char('d'));
    assert_eq!(call, Some(RemoteCall::DeleteTask("t1".to_string())));
    assert_eq!(ui.menu, MenuItem::Projects);
    assert_eq!(ui.tasks.task_table_state.selected(), Some(0));
    assert_eq!(ui.db.tasks.len(), 1);
}

#[test]
fn empty_project_is_not_entered() {
    let db = Database { projects: vec![project_with_id("inbox")], tasks: vec![task_in("x", "t")] };
    let mut ui = Ui::new(db);
    ui.press(Key::Char('l'));
    assert_eq!(ui.menu, MenuItem::Projects);
    assert_eq!(ui.tasks.task_table_state.selected(), Some(0));
}

#[test]
fn views_move_left_and_right() {
    let mut ui = Ui::new(two_projects());
    ui.menu = MenuItem::Home;
    ui.press(Key::Char('l'));
    assert_eq!(ui.menu, MenuItem::Projects);
    ui.press(Key::Char('j'));
    ui.press(Key::Char('h'));
    assert_eq!(ui.menu, MenuItem::Home);
    assert_eq!(ui.projects.project_table_state.selected(), Some(0));
    ui.press(Key::Char('h'));
    assert_eq!(ui.menu, MenuItem::Projects);
    ui.press(Key::Char('l'));
    assert_eq!(ui.menu, MenuItem::Tasks);
    ui.press(Key::Char('l'));
    assert_eq!(ui.menu, MenuItem::Projects);
}

#[test]
fn q_quits_outside_forms_only() {
    let mut ui = Ui::new(two_projects());
    assert_eq!(ui.press(Key::Char('q')).0, EventExit::Break);
    ui.press(Key::Char('a'));
    assert_eq!(ui.press(Key::Char('q')).0, EventExit::Continue);
    assert_eq!(ui.tasks.task_content.content, "q");
}

#[test]
fn submitting_a_task_adds_it_to_selected_project() {
    let mut ui = Ui::new(two_projects());
    ui.press(Key::Char('j'));
    ui.press(Key::Char('a'));
    assert_eq!(ui.menu, MenuItem::AddTask);
    assert_eq!(ui.tasks.active_task_item, TaskItem::Name);
    assert_eq!(ui.tasks.add_task_highlight.name, Color::Rgb(210, 39, 48));
    ui.type_text("Milk");
    ui.press(Key::Tab);
    ui.type_text("fresh");
    ui.press(Key::Tab);
    ui.type_text("shop, food");
    ui.press(Key::Tab);
    ui.type_text("today");
    ui.press(Key::Tab);
    ui.press(Key::Backspace);
    ui.type_text("4");
    assert_eq!(ui.tasks.task_content.priority, "4");
    let (exit, call) = ui.press(Key::Enter);
    assert_eq!(exit, EventExit::Continue);
    let posted = match call {
        Some(RemoteCall::CreateTask(t)) => t,
        other => panic!("expected a task to create, got {:?}", other),
    };
    assert_eq!(posted.content, "Milk");
    assert_eq!(posted.description, "fresh");
    assert_eq!(posted.labels, vec!["shop".to_string(), "food".to_string()]);
    assert_eq!(posted.due_string, Some("today".to_string()));
    assert_eq!(posted.priority, 4);
    assert_eq!(posted.project_id, "work");
    assert_eq!(ui.db.tasks.len(), 6);
    assert_eq!(ui.db.tasks[5], posted);
    assert_eq!(ui.menu, MenuItem::Projects);
    assert_eq!(ui.tasks.active_task_item, TaskItem::Empty);
    assert_eq!(ui.tasks.task_content.content, "");
    assert_eq!(ui.tasks.task_content.priority, "1");
}

#[test]
fn task_without_priority_is_not_submitted() {
    let mut ui = Ui::new(two_projects());
    ui.press(Key::Char('a'));
    ui.type_text("x");
    for _ in 0..4 {
        ui.press(Key::Tab);
    }
    ui.type_text("9");
    assert_eq!(ui.tasks.task_content.priority, "");
    let (_, call) = ui.press(Key::Enter);
    assert_eq!(call, None);
    assert_eq!(ui.menu, MenuItem::AddTask);
    assert_eq!(ui.db.tasks.len(), 5);
}

#[test]
fn submitting_a_project_appends_placeholder() {
    let mut ui = Ui::new(two_projects());
    ui.press(Key::Char('p'));
    assert_eq!(ui.menu, MenuItem::AddProject);
    assert_eq!(ui.projects.active_project_item, ProjectItem::Name);
    ui.type_text("Home");
    ui.press(Key::Backspace);
    let (_, call) = ui.press(Key::Enter);
    match call {
        Some(RemoteCall::CreateProject(p)) => assert_eq!(p.name, "Hom"),
        other => panic!("expected a project to create, got {:?}", other),
    }
    assert_eq!(ui.db.projects.len(), 3);
    assert_eq!(ui.db.projects[2].name, "Hom");
    assert_eq!(ui.db.projects[2].id, "");
    assert_eq!(ui.menu, MenuItem::Projects);
    assert_eq!(ui.projects.active_project_item, ProjectItem::Empty);
    assert_eq!(ui.projects.project_item.name, "");
}

#[test]
fn escape_discards_the_draft() {
    let mut ui = Ui::new(two_projects());
    ui.menu = MenuItem::Tasks;
    ui.press(Key::Char('a'));
    ui.type_text("abc");
    ui.press(Key::Esc);
    assert_eq!(ui.menu, MenuItem::Projects);
    assert_eq!(ui.tasks.task_content.content, "");
    assert_eq!(ui.tasks.active_task_item, TaskItem::Empty);
    assert_eq!(ui.tasks.add_task_highlight.name, Color::White);
}

#[test]
fn other_keys_change_nothing() {
    let mut ui = Ui::new(two_projects());
    let (exit, call) = ui.press(Key::Other);
    assert_eq!((exit, call), (EventExit::Continue, None));
    ui.press(Key::Tab);
    ui.press(Key::Enter);
    assert_eq!(ui.menu, MenuItem::Projects);
    assert_eq!(ui.db, two_projects());
}

#[test]
fn priority_field_clears_on_out_of_range() {
    let mut tasks = TaskStatus::default();
    tasks.active_task_item = TaskItem::Prio;
    tasks.task_content.priority = String::new();
    let mut projects = ProjectStatus::default();
    push_char_to_field('5', &mut tasks, &mut projects);
    assert_eq!(tasks.task_content.priority, "");
    push_char_to_field('2', &mut tasks, &mut projects);
    assert_eq!(tasks.task_content.priority, "2");
    push_char_to_field('2', &mut tasks, &mut projects);
    assert_eq!(tasks.task_content.priority, "");
    push_char_to_field('+', &mut tasks, &mut projects);
    assert_eq!(tasks.task_content.priority, "");
    push_char_to_field('x', &mut tasks, &mut projects);
    assert_eq!(tasks.task_content.priority, "");
}

#[test]
fn default_priority_is_replaced_only_after_erasing() {
    let mut tasks = TaskStatus::default();
    tasks.active_task_item = TaskItem::Prio;
    let mut projects = ProjectStatus::default();
    push_char_to_field('2', &mut tasks, &mut projects);
    assert_eq!(tasks.task_content.priority, "");
    tasks.task_content.priority = "1".to_string();
    remove_char_from_field(&mut tasks, &mut projects);
    assert_eq!(tasks.task_content.priority, "");
    remove_char_from_field(&mut tasks, &mut projects);
    assert_eq!(tasks.task_content.priority, "");
    push_char_to_field('3', &mut tasks, &mut projects);
    assert_eq!(tasks.task_content.priority, "3");
}

#[test]
fn typing_goes_to_focused_field_only() {
    let mut tasks = TaskStatus::default();
    tasks.active_task_item = TaskItem::Label;
    let mut projects = ProjectStatus::default();
    push_char_to_field('a', &mut tasks, &mut projects);
    push_char_to_field(',', &mut tasks, &mut projects);
    assert_eq!(tasks.task_content.labels, "a,");
    assert_eq!(tasks.task_content.content, "");
    assert_eq!(projects.project_item.name, "");
    remove_char_from_field(&mut tasks, &mut projects);
    assert_eq!(tasks.task_content.labels, "a");
    projects.active_project_item = ProjectItem::Name;
    tasks.active_task_item = TaskItem::Empty;
    push_char_to_field('z', &mut tasks, &mut projects);
    assert_eq!(projects.project_item.name, "z");
    assert_eq!(tasks.task_content.labels, "a");
}

#[test]
fn cursor_keys_follow_the_view() {
    let mut ui = Ui::new(two_projects());
    ui.press(Key::Char('k'));
    assert_eq!(ui.projects.project_table_state.selected(), Some(1));
    ui.press(Key::Char('l'));
    ui.press(Key::Char('k'));
    assert_eq!(ui.tasks.task_table_state.selected(), Some(2));
    ui.press(Key::Char('j'));
    assert_eq!(ui.tasks.task_table_state.selected(), Some(0));
    assert_eq!(ui.projects.project_table_state.selected(), Some(1));
}
