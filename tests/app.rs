use iced_exercises::app::{ActiveApp, AppChoice, AppMessage, MainApp};
use iced_exercises::counter::Message as CounterMessage;
use iced_exercises::todo::Message as TodoMessage;

fn counter_value(m: &MainApp) -> Option<i32> {
    match m.active() {
        ActiveApp::Counter(c) => Some(c.value),
        ActiveApp::Todo(_) => None,
    }
}

fn todo_len(m: &MainApp) -> Option<usize> {
    match m.active() {
        ActiveApp::Todo(t) => Some(t.todos().len()),
        ActiveApp::Counter(_) => None,
    }
}

#[test]
fn main_app_starts_with_counter() {
    let m = MainApp::new();
    assert_eq!(m.selected_app(), AppChoice::Counter);
    assert_eq!(counter_value(&m), Some(0));
}

#[test]
fn main_app_forwards_to_active_counter() {
    let mut m = MainApp::new();
    m.update(AppMessage::Counter(CounterMessage::Increment));
    m.update(AppMessage::Counter(CounterMessage::Increment));
    m.update(AppMessage::Counter(CounterMessage::Decrement));
    assert_eq!(counter_value(&m), Some(1));
}

#[test]
fn main_app_drops_message_for_inactive_app() {
    let mut m = MainApp::new();
    m.update(AppMessage::Counter(CounterMessage::Increment));
    m.update(AppMessage::Todo(TodoMessage::UpdateInput("x".to_string())));
    m.update(AppMessage::Todo(TodoMessage::Add));
    assert_eq!(counter_value(&m), Some(1));
    m.update(AppMessage::SelectedApp(AppChoice::Todo));
    m.update(AppMessage::Counter(CounterMessage::Increment));
    assert_eq!(todo_len(&m), Some(0));
}

#[test]
fn main_app_reselecting_counter_resets_it() {
    let mut m = MainApp::new();
    m.update(AppMessage::Counter(CounterMessage::Increment));
    m.update(AppMessage::SelectedApp(AppChoice::Counter));
    assert_eq!(counter_value(&m), Some(0));
}

#[test]
fn main_app_todo_not_kept_across_switch() {
    let mut m = MainApp::new();
    m.update(AppMessage::SelectedApp(AppChoice::Todo));
    assert_eq!(m.selected_app(), AppChoice::Todo);
    for text in ["a", "b", "c"] {
        m.update(AppMessage::Todo(TodoMessage::UpdateInput(text.to_string())));
        m.update(AppMessage::Todo(TodoMessage::Add));
    }
    m.update(AppMessage::Todo(TodoMessage::UpdateInput("left over".to_string())));
    assert_eq!(todo_len(&m), Some(3));
    m.update(AppMessage::SelectedApp(AppChoice::Counter));
    assert_eq!(m.selected_app(), AppChoice::Counter);
    m.update(AppMessage::SelectedApp(AppChoice::Todo));
    assert_eq!(todo_len(&m), Some(0));
    match m.active() {
        ActiveApp::Todo(t) => assert_eq!(t.input_value(), ""),
        ActiveApp::Counter(_) => panic!("todo list expected"),
    }
}

#[test]
fn app_choice_labels() {
    assert_eq!(AppChoice::Counter.label(), "Counter");
    assert_eq!(AppChoice::Todo.label(), "Todo");
}
