use phantimer::dashboard::{ui, DashboardAction, DashboardApp, Focus, NAME_WIDTH};
use phantimer::input::Key;

fn launched(action: DashboardAction) -> Option<String> {
    match action {
        DashboardAction::Launch(text) => Some(text),
        _ => None,
    }
}

fn is_continue(action: &DashboardAction) -> bool {
    matches!(action, DashboardAction::Continue)
}

fn is_quit(action: &DashboardAction) -> bool {
    matches!(action, DashboardAction::Quit)
}

fn type_text(app: &mut DashboardApp, text: &str) {
    for c in text.chars() {
        assert!(is_continue(&app.handle_key(Key::Char(c))));
    }
}

#[test]
fn starts_in_input_with_empty_buffer() {
    let app = DashboardApp::new();
    assert_eq!(app.focus(), Focus::Input);
    assert_eq!(app.input_text(), "");
    assert_eq!(app.selected_preset(), 0);
}

#[test]
fn offers_the_five_presets_in_order() {
    let app = DashboardApp::new();
    assert_eq!(app.preset_count(), 5);
    assert_eq!(app.preset(0), Some(("Pomodoro", "25m")));
    assert_eq!(app.preset(1), Some(("Short Break", "5m")));
    assert_eq!(app.preset(2), Some(("Long Break", "15m")));
    assert_eq!(app.preset(3), Some(("Meeting", "1h")));
    assert_eq!(app.preset(4), Some(("Standup", "15m")));
    assert_eq!(app.preset(5), None);
}

#[test]
fn tab_moves_to_presets_and_back() {
    let mut app = DashboardApp::new();
    assert!(is_continue(&app.handle_key(Key::Tab)));
    assert_eq!(app.focus(), Focus::Presets);
    assert!(is_continue(&app.handle_key(Key::Tab)));
    assert_eq!(app.focus(), Focus::Input);
    assert!(is_continue(&app.handle_key(Key::Down)));
    assert_eq!(app.focus(), Focus::Presets);
    assert!(is_continue(&app.handle_key(Key::BackTab)));
    assert_eq!(app.focus(), Focus::Input);
    // shift-tab and cursor-up mean nothing in the input field
    assert!(is_continue(&app.handle_key(Key::BackTab)));
    assert_eq!(app.focus(), Focus::Input);
    assert!(is_continue(&app.handle_key(Key::Up)));
    assert_eq!(app.focus(), Focus::Input);
}

#[test]
fn up_at_the_first_preset_stays_there() {
    let mut app = DashboardApp::new();
    app.handle_key(Key::Tab);
    assert_eq!(app.selected_preset(), 0);
    assert!(is_continue(&app.handle_key(Key::Up)));
    assert_eq!(app.selected_preset(), 0);
    assert!(is_continue(&app.handle_key(Key::Char('k'))));
    assert_eq!(app.selected_preset(), 0);
    app.previous_preset();
    assert_eq!(app.selected_preset(), 0);
}

#[test]
fn down_repeatedly_stops_at_the_last_preset() {
    let mut app = DashboardApp::new();
    app.handle_key(Key::Tab);
    let last = app.preset_count() - 1;
    for presses in 1..=10 {
        assert!(is_continue(&app.handle_key(Key::Down)));
        assert_eq!(app.selected_preset(), presses.min(last));
    }
    assert!(is_continue(&app.handle_key(Key::Char('j'))));
    assert_eq!(app.selected_preset(), last);
    app.next_preset();
    assert_eq!(app.selected_preset(), last);
}

#[test]
fn vi_keys_move_the_highlight() {
    let mut app = DashboardApp::new();
    app.handle_key(Key::Tab);
    app.handle_key(Key::Char('j'));
    app.handle_key(Key::Char('j'));
    assert_eq!(app.selected_preset(), 2);
    app.handle_key(Key::Char('k'));
    assert_eq!(app.selected_preset(), 1);
    app.handle_key(Key::Up);
    assert_eq!(app.selected_preset(), 0);
    // the letters are not typed into the field
    assert_eq!(app.input_text(), "");
}

#[test]
fn next_and_previous_preset_move_by_one() {
    let mut app = DashboardApp::new();
    app.next_preset();
    assert_eq!(app.selected_preset(), 1);
    app.next_preset();
    assert_eq!(app.selected_preset(), 2);
    app.previous_preset();
    assert_eq!(app.selected_preset(), 1);
}

#[test]
fn confirm_with_empty_buffer_does_nothing() {
    let mut app = DashboardApp::new();
    assert!(is_continue(&app.handle_key(Key::Enter)));
    assert_eq!(app.focus(), Focus::Input);
    assert_eq!(app.input_text(), "");
    assert_eq!(app.selected_preset(), 0);
}

#[test]
fn confirm_with_text_launches_exactly_that_text() {
    let mut app = DashboardApp::new();
    type_text(&mut app, "90s");
    assert_eq!(launched(app.handle_key(Key::Enter)), Some("90s".to_string()));
    assert_eq!(app.input_text(), "90s");

    let mut app = DashboardApp::new();
    type_text(&mut app, " not a duration ");
    assert_eq!(
        launched(app.handle_key(Key::Enter)),
        Some(" not a duration ".to_string())
    );
}

#[test]
fn typing_appends_and_backspace_removes_the_last_character() {
    let mut app = DashboardApp::new();
    type_text(&mut app, "12m");
    assert_eq!(app.input_text(), "12m");
    assert!(is_continue(&app.handle_key(Key::Backspace)));
    assert_eq!(app.input_text(), "12");
    type_text(&mut app, "h");
    assert_eq!(app.input_text(), "12h");
    for _ in 0..5 {
        assert!(is_continue(&app.handle_key(Key::Backspace)));
    }
    assert_eq!(app.input_text(), "");
    // q, j and k are ordinary characters here
    type_text(&mut app, "qjk");
    assert_eq!(app.input_text(), "qjk");
    assert_eq!(app.focus(), Focus::Input);
}

#[test]
fn typing_among_the_presets_changes_nothing() {
    let mut app = DashboardApp::new();
    type_text(&mut app, "5m");
    app.handle_key(Key::Tab);
    assert!(is_continue(&app.handle_key(Key::Char('x'))));
    assert!(is_continue(&app.handle_key(Key::Backspace)));
    assert!(is_continue(&app.handle_key(Key::Other)));
    assert_eq!(app.input_text(), "5m");
    assert_eq!(app.selected_preset(), 0);
    assert_eq!(app.focus(), Focus::Presets);
}

#[test]
fn enter_among_the_presets_launches_the_highlighted_one() {
    let mut app = DashboardApp::new();
    app.handle_key(Key::Tab);
    assert_eq!(launched(app.handle_key(Key::Enter)), Some("25m".to_string()));
    app.handle_key(Key::Down);
    app.handle_key(Key::Down);
    app.handle_key(Key::Down);
    assert_eq!(launched(app.handle_key(Key::Enter)), Some("1h".to_string()));
}

#[test]
fn preset_launch_ignores_typed_text() {
    let mut app = DashboardApp::new();
    type_text(&mut app, "77s");
    app.handle_key(Key::Tab);
    app.handle_key(Key::Down);
    assert_eq!(launched(app.handle_key(Key::Enter)), Some("5m".to_string()));
}

#[test]
fn escape_cancels_in_both_modes_and_q_among_the_presets() {
    let mut app = DashboardApp::new();
    assert!(is_quit(&app.handle_key(Key::Esc)));
    assert_eq!(app.focus(), Focus::Input);

    let mut app = DashboardApp::new();
    app.handle_key(Key::Tab);
    assert!(is_quit(&app.handle_key(Key::Esc)));

    let mut app = DashboardApp::new();
    app.handle_key(Key::Tab);
    assert!(is_quit(&app.handle_key(Key::Char('q'))));
    assert_eq!(app.focus(), Focus::Presets);
}

#[test]
fn screen_of_a_fresh_dashboard() {
    let app = DashboardApp::new();
    let screen = ui(&app);
    assert_eq!(screen.input_text, "");
    assert_eq!(screen.focus, Focus::Input);
    assert_eq!(screen.highlighted, 0);
    assert_eq!(
        screen.preset_lines,
        vec![
            "Pomodoro        (25m)".to_string(),
            "Short Break     (5m)".to_string(),
            "Long Break      (15m)".to_string(),
            "Meeting         (1h)".to_string(),
            "Standup         (15m)".to_string(),
        ]
    );
    assert_eq!(
        screen.help,
        "Type duration (e.g. 10m) • <Enter> Start • <Tab> Presets"
    );
}

#[test]
fn screen_lines_match_the_standard_formatting() {
    let app = DashboardApp::new();
    let screen = ui(&app);
    assert_eq!(NAME_WIDTH, 15);
    for index in 0..app.preset_count() {
        let (name, time) = app.preset(index).unwrap();
        assert_eq!(screen.preset_lines[index], format!("{:<15} ({})", name, time));
    }
}

#[test]
fn screen_follows_the_state() {
    let mut app = DashboardApp::new();
    type_text(&mut app, "45m");
    app.handle_key(Key::Tab);
    app.handle_key(Key::Down);
    app.handle_key(Key::Down);
    let screen = ui(&app);
    assert_eq!(screen.input_text, "45m");
    assert_eq!(screen.focus, Focus::Presets);
    assert_eq!(screen.highlighted, 2);
    assert_eq!(screen.preset_lines.len(), 5);
    assert_eq!(
        screen.help,
        "↑/↓ Navigate • <Enter> Select • <Tab> Custom Input"
    );
}
