use rhd_chat::templates::TemplateLoaderRef;
use rhd_chat::todo::{
    parse_todo_list, render_environment_details, render_environment_details_for_injection,
    render_todo_rows, todo_list_message, TodoItem, TodoStatus,
};

#[test]
fn tools_test_parse_todo_list() {
    let input = "[x] Completed task\n[-] In progress task\n[ ] Pending task\n[!] Discarded task";
    let items = parse_todo_list(input).unwrap();

    assert_eq!(items.len(), 4);
    assert_eq!(items[0].content, "Completed task");
    assert_eq!(items[0].status, TodoStatus::Completed);
    assert_eq!(items[1].content, "In progress task");
    assert_eq!(items[1].status, TodoStatus::InProgress);
    assert_eq!(items[2].content, "Pending task");
    assert_eq!(items[2].status, TodoStatus::Pending);
    assert_eq!(items[3].content, "Discarded task");
    assert_eq!(items[3].status, TodoStatus::Discarded);
}

#[test]
fn tools_test_parse_todo_list_empty_lines() {
    let input = "[x] Task 1\n\n[-] Task 2\n\n";
    let items = parse_todo_list(input).unwrap();
    assert_eq!(items.len(), 2);
}

#[test]
fn tools_test_parse_todo_list_invalid_lines() {
    let input = "[x] Valid task\nInvalid line\n[-] Another valid task";
    let items = parse_todo_list(input).unwrap();
    assert_eq!(items.len(), 2);
}

#[test]
fn tests_test_parse_todo_list() {
    let input = "[x] Completed task\n[-] In progress task\n[ ] Pending task\n[!] Discarded task";
    let items = parse_todo_list(input).unwrap();

    assert_eq!(items.len(), 4);
    assert_eq!(items[0].content, "Completed task");
    assert_eq!(items[0].status, TodoStatus::Completed);
    assert_eq!(items[1].content, "In progress task");
    assert_eq!(items[1].status, TodoStatus::InProgress);
    assert_eq!(items[2].content, "Pending task");
    assert_eq!(items[2].status, TodoStatus::Pending);
    assert_eq!(items[3].content, "Discarded task");
    assert_eq!(items[3].status, TodoStatus::Discarded);
}

#[test]
fn tests_test_parse_todo_list_empty_lines() {
    let input = "[x] Task 1\n\n[-] Task 2\n\n";
    let items = parse_todo_list(input).unwrap();
    assert_eq!(items.len(), 2);
}

#[test]
fn tests_test_parse_todo_list_invalid_lines() {
    let input = "[x] Valid task\nInvalid line\n[-] Another valid task";
    let items = parse_todo_list(input).unwrap();
    assert_eq!(items.len(), 2);
}

#[test]
fn todo_list_test_parse_todo_list() {
    let input = "[x] Completed task\n[-] In progress task\n[ ] Pending task\n[!] Discarded task";
    let items = parse_todo_list(input).unwrap();

    assert_eq!(items.len(), 4);
    assert_eq!(items[0].content, "Completed task");
    assert_eq!(items[0].status, TodoStatus::Completed);
    assert_eq!(items[1].content, "In progress task");
    assert_eq!(items[1].status, TodoStatus::InProgress);
    assert_eq!(items[2].content, "Pending task");
    assert_eq!(items[2].status, TodoStatus::Pending);
    assert_eq!(items[3].content, "Discarded task");
    assert_eq!(items[3].status, TodoStatus::Discarded);
}

#[test]
fn todo_list_test_parse_todo_list_empty_lines() {
    let input = "[x] Task 1\n\n[-] Task 2\n\n";
    let items = parse_todo_list(input).unwrap();
    assert_eq!(items.len(), 2);
}

#[test]
fn todo_list_test_parse_todo_list_invalid_lines() {
    let input = "[x] Valid task\nInvalid line\n[-] Another valid task";
    let items = parse_todo_list(input).unwrap();
    assert_eq!(items.len(), 2);
}

fn item(content: &str, status: TodoStatus) -> TodoItem {
    TodoItem { content: content.to_string(), status }
}

#[test]
fn parse_todo_list_trims_lines() {
    let items = parse_todo_list("   [x] Spaced task  \n\t[ ] Tabbed\r\n").unwrap();
    assert_eq!(items, vec![item("Spaced task", TodoStatus::Completed), item("Tabbed", TodoStatus::Pending)]);
}

#[test]
fn parse_todo_list_needs_space_after_marker() {
    let items = parse_todo_list("[x]NoSpace\n[?] Unknown\n[x] ").unwrap();
    assert_eq!(items, vec![]);
}

#[test]
fn parse_todo_list_empty_input() {
    assert_eq!(parse_todo_list("").unwrap(), vec![]);
}

#[test]
fn render_rows_numbers_from_one() {
    let items = vec![item("Task 1", TodoStatus::Completed), item("Task 2", TodoStatus::InProgress)];
    assert_eq!(
        render_todo_rows(&items),
        "| 1 | Task 1 | Completed |\n| 2 | Task 2 | In Progress |\n"
    );
}

const WITH_ITEMS: &str = "| # | Content | Status |\n|---|---------|--------|\n{todoItems}";
const NO_ROLE: &str = "<environment_details>\n# TODO list\n{todoItems}\n</environment_details>";
const WITH_ROLE: &str = "Role: {currentRoleName}\n{todoItems}";

#[test]
fn environment_details_with_items_no_role() {
    let items = vec![item("Task 1", TodoStatus::Completed), item("Task 2", TodoStatus::Pending)];
    let r = render_environment_details(&items, None, Some("empty"), Some(WITH_ITEMS), Some(WITH_ROLE), Some(NO_ROLE));
    assert_eq!(
        r.unwrap(),
        "<environment_details>\n# TODO list\n| # | Content | Status |\n|---|---------|--------|\n| 1 | Task 1 | Completed |\n| 2 | Task 2 | Pending |\n\n</environment_details>"
    );
}

#[test]
fn environment_details_empty_with_role() {
    let role = ("project-a".to_string(), "developer".to_string());
    let r = render_environment_details(&[], Some(&role), Some("You have not created a todo list yet."), None, Some(WITH_ROLE), None);
    assert_eq!(r.unwrap(), "Role: developer (project-a)\nYou have not created a todo list yet.");
}

#[test]
fn environment_details_missing_template() {
    let items = vec![item("Task 1", TodoStatus::Completed)];
    assert_eq!(render_environment_details(&items, None, Some("e"), None, None, Some(NO_ROLE)), None);
    assert_eq!(render_environment_details(&items, None, Some("e"), Some(WITH_ITEMS), Some(WITH_ROLE), None), None);
    assert_eq!(render_environment_details(&[], None, None, Some(WITH_ITEMS), None, Some(NO_ROLE)), None);
}

#[test]
fn environment_details_through_loader() {
    let loader = TemplateLoaderRef::new(|name: &str| match name {
        "environment/todo_list_with_items" => Some(WITH_ITEMS.to_string()),
        "environment/details_with_role" => Some(WITH_ROLE.to_string()),
        _ => None,
    });
    let items = vec![item("Task 1", TodoStatus::Completed)];
    let role = ("project-a".to_string(), "developer".to_string());
    let r = render_environment_details_for_injection(&loader, &items, Some(&role)).unwrap();
    assert!(r.contains("developer (project-a)"));
    assert!(r.contains("| 1 | Task 1 | Completed |"));
    assert_eq!(render_environment_details_for_injection(&loader, &items, None), None);
}

#[test]
fn todo_list_message_cases() {
    let loader = TemplateLoaderRef::new(|name: &str| match name {
        "environment/todo_list_empty" => Some("You have not created a todo list yet.".to_string()),
        "environment/todo_list_with_items" => Some(WITH_ITEMS.to_string()),
        "environment/details_no_role" => Some(NO_ROLE.to_string()),
        _ => None,
    });
    assert_eq!(todo_list_message(&loader, None, None), Some("You have not created a todo list yet.".to_string()));
    let m = todo_list_message(&loader, Some("[x] Task 1\n[-] Task 2\n[ ] Task 3"), None).unwrap();
    assert!(m.contains("TODO list"));
    assert!(m.contains("Task 1"));
    assert!(m.contains("| 3 | Task 3 | Pending |"));
    let m = todo_list_message(&loader, Some(""), None).unwrap();
    assert_eq!(m, "<environment_details>\n# TODO list\nYou have not created a todo list yet.\n</environment_details>");
    let role = ("project-a".to_string(), "developer".to_string());
    assert_eq!(todo_list_message(&loader, Some("[x] Task 1"), Some(&role)), None);
    let empty = TemplateLoaderRef::new(|_: &str| None);
    assert_eq!(todo_list_message(&empty, None, None), None);
}

#[test]
fn parsing_joined_texts_concatenates_items() {
    let a = "[x] One\nnot an item";
    let b = "  [ ] Two\n[!] Three";
    let mut joined = parse_todo_list(a).unwrap();
    joined.extend(parse_todo_list(b).unwrap());
    assert_eq!(parse_todo_list(&format!("{}\n{}", a, b)).unwrap(), joined);
    assert_eq!(joined.len(), 3);
}
