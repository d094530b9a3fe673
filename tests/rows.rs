use taskboard::api::{Due, Task};
use taskboard::task::{field_cursor_offset, task_row_lines};

fn task_with(description: &str, labels: &[&str], datetime: Option<&str>) -> Task {
    Task {
        creator_id: String::new(),
        created_at: String::new(),
        assignee_id: None,
        assigner_id: None,
        comment_count: 0,
        is_completed: false,
        content: "Title".to_string(),
        description: description.to_string(),
        id: "1".to_string(),
        due: datetime.map(|d| Due {
            date: None,
            is_recurring: None,
            datetime: Some(d.to_string()),
            timezone: None,
            string: None,
        }),
        labels: labels.iter().map(|l| l.to_string()).collect(),
        order: 0,
        priority: 1,
        project_id: "p".to_string(),
        section_id: None,
        parent_id: None,
        due_string: None,
        url: String::new(),
    }
}

#[test]
fn row_of_a_bare_task_is_its_title() {
    assert_eq!(task_row_lines(&task_with("", &[], None)), vec!["Title".to_string()]);
}

#[test]
fn short_description_takes_one_line() {
    let lines = task_row_lines(&task_with("short", &[], None));
    assert_eq!(lines, vec!["Title".to_string(), "short".to_string()]);
}

#[test]
fn long_description_wraps_at_38() {
    let d = "x".repeat(80);
    let lines = task_row_lines(&task_with(&d, &[], None));
    assert_eq!(lines, vec!["Title".to_string(), "x".repeat(38), "x".repeat(38), "x".repeat(4)]);
}

#[test]
fn short_tail_stays_on_its_line() {
    let d = "y".repeat(77);
    let lines = task_row_lines(&task_with(&d, &[], None));
    assert_eq!(lines, vec!["Title".to_string(), "y".repeat(38), "y".repeat(39)]);
    let d = "z".repeat(41);
    let lines = task_row_lines(&task_with(&d, &[], None));
    assert_eq!(lines, vec!["Title".to_string(), "z".repeat(41)]);
}

#[test]
fn labels_and_due_follow_the_description() {
    let lines = task_row_lines(&task_with("", &["home", "work"], Some("2023-01-31T12:00:00")));
    assert_eq!(
        lines,
        vec!["Title".to_string(), "home, work".to_string(), "2023-01-31 12:00:00".to_string()]
    );
    let lines = task_row_lines(&task_with("", &[], Some("Tomorrow")));
    assert_eq!(lines, vec!["Title".to_string(), "Tomorrow".to_string()]);
}

#[test]
fn cursor_column_wraps_with_the_field() {
    assert_eq!(field_cursor_offset(0, 40), 0);
    assert_eq!(field_cursor_offset(39, 40), 39);
    assert_eq!(field_cursor_offset(40, 40), 3);
    assert_eq!(field_cursor_offset(45, 40), 8);
    assert_eq!(field_cursor_offset(30, 25), 8);
}
