use todo::store::TodoState;
use todo::task::TaskError;

fn ids(state: &TodoState) -> Vec<String> {
    state.get_tasks(String::new()).unwrap().iter().map(|t| t.id().clone()).collect()
}

#[test]
fn new_state_is_empty() {
    let state = TodoState::new();
    assert!(state.get_tasks("all".to_string()).unwrap().is_empty());
    assert!(state.channels().is_empty());
    assert!(TodoState::default().get_tasks(String::new()).unwrap().is_empty());
}

#[test]
fn add_appends_task_with_new_id() {
    let mut state = TodoState::new();
    let first = state.add_task("write".to_string()).unwrap();
    let second = state.add_task("read".to_string()).unwrap();
    assert_eq!(first.text(), "write");
    assert!(!first.completed());
    assert_eq!(first.id().chars().count(), 36);
    assert_eq!(second.id().chars().count(), 36);
    assert_ne!(first.id(), second.id());
    let tasks = state.get_tasks(String::new()).unwrap();
    assert_eq!(tasks.len(), 2);
    assert_eq!(tasks[0], first);
    assert_eq!(tasks[1], second);
    assert_eq!(tasks.iter().filter(|t| t.id() == second.id()).count(), 1);
}

#[test]
fn add_keeps_text_as_given() {
    let mut state = TodoState::new();
    let task = state.add_task("  padded  ".to_string()).unwrap();
    assert_eq!(task.text(), "  padded  ");
}

#[test]
fn add_rejects_empty_text() {
    let mut state = TodoState::new();
    state.add_task("keep".to_string()).unwrap();
    let err = state.add_task(String::new()).unwrap_err();
    assert!(matches!(err, TaskError::EmptyText));
    assert_eq!(err.message(), "Task text cannot be empty");
    assert_eq!(state.get_tasks(String::new()).unwrap().len(), 1);
}

#[test]
fn add_rejects_blank_text() {
    let mut state = TodoState::new();
    assert!(matches!(state.add_task("   ".to_string()), Err(TaskError::EmptyText)));
    assert!(matches!(state.add_task("\t\n\u{a0}\u{3000}".to_string()), Err(TaskError::EmptyText)));
    assert!(state.get_tasks(String::new()).unwrap().is_empty());
}

#[test]
fn add_with_id_uses_unused_candidate() {
    let mut state = TodoState::new();
    let task = state.add_task_with_id("a".to_string(), "id-1".to_string()).unwrap();
    assert_eq!(task.id(), "id-1");
    assert_eq!(ids(&state), vec!["id-1".to_string()]);
}

#[test]
fn add_with_id_lengthens_a_taken_candidate() {
    let mut state = TodoState::new();
    state.add_task_with_id("a".to_string(), "x".to_string()).unwrap();
    state.add_task_with_id("b".to_string(), "longer".to_string()).unwrap();
    let task = state.add_task_with_id("c".to_string(), "x".to_string()).unwrap();
    assert_eq!(task.id(), "x------");
    assert_eq!(task.text(), "c");
    assert_eq!(ids(&state), vec!["x".to_string(), "longer".to_string(), "x------".to_string()]);
    assert_eq!(state.unused_id("longer".to_string()), "longer--");
    assert_eq!(state.unused_id("free".to_string()), "free");
}

#[test]
fn add_with_id_rejects_blank_text() {
    let mut state = TodoState::new();
    let r = state.add_task_with_id(" ".to_string(), "id".to_string());
    assert!(matches!(r, Err(TaskError::EmptyText)));
    assert!(ids(&state).is_empty());
}

#[test]
fn toggle_flips_once_per_call() {
    let mut state = TodoState::new();
    let a = state.add_task_with_id("a".to_string(), "1".to_string()).unwrap();
    state.add_task_with_id("b".to_string(), "2".to_string()).unwrap();
    let once = state.toggle_task(a.id().clone()).unwrap();
    assert!(once.completed());
    assert_eq!(once.id(), "1");
    assert_eq!(once.text(), "a");
    let tasks = state.get_tasks(String::new()).unwrap();
    assert!(tasks[0].completed());
    assert!(!tasks[1].completed());
    let twice = state.toggle_task("1".to_string()).unwrap();
    assert!(!twice.completed());
    assert_eq!(twice, a);
    assert_eq!(state.get_tasks(String::new()).unwrap()[0], a);
}

#[test]
fn toggle_unknown_id_fails() {
    let mut state = TodoState::new();
    state.add_task_with_id("a".to_string(), "1".to_string()).unwrap();
    let before = state.get_tasks(String::new()).unwrap();
    let err = state.toggle_task("nonexistent".to_string()).unwrap_err();
    match &err {
        TaskError::NotFound(id) => assert_eq!(id, "nonexistent"),
        other => panic!("unexpected error {:?}", other),
    }
    assert_eq!(err.message(), "Task with id 'nonexistent' not found");
    assert_eq!(state.get_tasks(String::new()).unwrap(), before);
}

#[test]
fn find_task_gives_position() {
    let mut state = TodoState::new();
    state.add_task_with_id("a".to_string(), "1".to_string()).unwrap();
    state.add_task_with_id("b".to_string(), "2".to_string()).unwrap();
    assert_eq!(state.find_task(&"2".to_string()), Some(1));
    assert_eq!(state.find_task(&"3".to_string()), None);
}

#[test]
fn initialize_clears_state() {
    let mut state = TodoState::new();
    state.add_task("a".to_string()).unwrap();
    state.connect(4);
    state.initialize();
    assert!(state.get_tasks(String::new()).unwrap().is_empty());
    assert!(state.channels().is_empty());
}

#[test]
fn clone_copies_tasks_and_channels() {
    let mut state = TodoState::new();
    state.add_task_with_id("a".to_string(), "1".to_string()).unwrap();
    state.connect(9);
    let copy = state.clone();
    assert_eq!(copy.get_tasks(String::new()).unwrap(), state.get_tasks(String::new()).unwrap());
    assert_eq!(copy.channels(), vec![9]);
}
