use mekanikci::tui::app::{App, AppError};
use mekanikci::tui::chat::{ChatWidget, MessageRole};
use mekanikci::tui::input::InputWidget;
use mekanikci::tui::session::Session;
use mekanikci::tui::status::StatusWidget;
use mekanikci::tui::style::{Color, Style};

#[test]
fn test_session_new_is_empty() {
    let session = Session::new();
    assert!(session.entries.is_empty());
}

#[test]
fn test_session_add_entry() {
    let mut session = Session::new();
    session.add_entry("prompt".into(), "response".into());
    assert_eq!(session.entries.len(), 1);
    assert_eq!(session.entries[0].prompt, "prompt");
    assert_eq!(session.entries[0].response, "response");
}

#[test]
fn test_session_append_multiple() {
    let mut session = Session::new();
    session.add_entry("a".into(), "1".into());
    session.add_entry("b".into(), "2".into());
    assert_eq!(session.entries.len(), 2);
}

#[test]
fn session_keeps_order() {
    let mut session = Session::default();
    session.add_entry("a".into(), "1".into());
    session.add_entry("b".into(), "2".into());
    assert_eq!(session.entries[0].prompt, "a");
    assert_eq!(session.entries[1].response, "2");
}

#[test]
fn app_starts_running_and_run_is_not_implemented() {
    let mut app = App::new();
    assert!(app.running);
    assert!(App::default().running);
    let err = app.run().unwrap_err();
    assert_eq!(err, AppError::NotImplemented);
    assert_eq!(err.message(), "App::run not implemented yet");
    assert!(app.running);
}

#[test]
fn chat_add_message_resets_scroll() {
    let mut chat = ChatWidget::new();
    for i in 0..10 {
        chat.add_message(format!("m{}", i), MessageRole::User);
    }
    chat.scroll_up();
    assert_eq!(chat.scroll_offset, 3);
    chat.add_message("new".into(), MessageRole::System);
    assert_eq!(chat.scroll_offset, 0);
    assert_eq!(chat.messages.len(), 11);
    assert_eq!(chat.messages[10].text, "new");
    assert_eq!(chat.messages[10].role, MessageRole::System);
}

#[test]
fn chat_scroll_is_clamped() {
    let mut chat = ChatWidget::default();
    chat.scroll_up();
    assert_eq!(chat.scroll_offset, 0);
    for i in 0..5 {
        chat.add_message(format!("m{}", i), MessageRole::User);
    }
    chat.scroll_up();
    assert_eq!(chat.scroll_offset, 3);
    chat.scroll_up();
    assert_eq!(chat.scroll_offset, 4);
    chat.scroll_down();
    assert_eq!(chat.scroll_offset, 1);
    chat.scroll_down();
    assert_eq!(chat.scroll_offset, 0);
}

#[test]
fn chat_scroll_round_trip() {
    let mut chat = ChatWidget::new();
    for i in 0..20 {
        chat.add_message(format!("m{}", i), MessageRole::User);
    }
    chat.scroll_up();
    chat.scroll_up();
    assert_eq!(chat.scroll_offset, 6);
    chat.scroll_down();
    assert_eq!(chat.scroll_offset, 3);
}

#[test]
fn chat_title_and_rows() {
    let mut chat = ChatWidget::new();
    assert_eq!(chat.title(), " Chat (0) ");
    for i in 0..12 {
        chat.add_message(format!("m{}", i), MessageRole::User);
    }
    assert_eq!(chat.title(), " Chat (12) ");
    chat.scroll_up();
    assert_eq!(chat.title(), " Chat (12) \u{2191}3  ");
    assert_eq!(chat.scroll_row(), 3);
    chat.scroll_offset = 70000;
    assert_eq!(chat.scroll_row(), 11);
    chat.scroll_offset = 65537;
    assert_eq!(chat.scroll_row(), 1);
}

#[test]
fn chat_lines_and_styles() {
    let mut chat = ChatWidget::new();
    chat.add_message("hi".into(), MessageRole::User);
    chat.add_message("done".into(), MessageRole::System);
    chat.add_message("oops".into(), MessageRole::Error);
    let lines = chat.lines();
    assert_eq!(lines.len(), 3);
    assert_eq!(lines[0].prefix, "You: ");
    assert_eq!(lines[1].prefix, "  \u{2713} ");
    assert_eq!(lines[2].prefix, "  \u{2717} ");
    assert_eq!(lines[0].prefix_style, Style::fg(Color::DarkGray));
    assert_eq!(lines[0].text_style, Style::fg(Color::Cyan));
    assert_eq!(lines[1].text_style, Style::fg(Color::Green));
    assert_eq!(lines[2].text_style, Style::fg(Color::Red));
    assert_eq!(lines[2].text, "oops");
    assert_eq!(chat.border_style(), Style::plain());
    chat.focused = true;
    assert_eq!(chat.border_style(), Style::fg(Color::Yellow));
}

#[test]
fn input_insert_and_delete() {
    let mut input = InputWidget::new();
    input.insert_char('a');
    input.insert_char('b');
    input.insert_char('c');
    assert_eq!(input.input, "abc");
    assert_eq!(input.cursor, 3);
    input.delete_char();
    assert_eq!(input.input, "ab");
    assert_eq!(input.cursor, 2);
    input.cursor = 0;
    input.insert_char('x');
    assert_eq!(input.input, "xab");
    assert_eq!(input.cursor, 1);
}

#[test]
fn input_delete_at_start_does_nothing() {
    let mut input = InputWidget::default();
    input.delete_char();
    assert_eq!(input.input, "");
    assert_eq!(input.cursor, 0);
}

#[test]
fn input_delete_undoes_insert_of_wide_char() {
    let mut input = InputWidget::new();
    input.insert_char('a');
    input.insert_char('b');
    input.cursor = 1;
    input.insert_char('\u{e9}');
    assert_eq!(input.input, "a\u{e9}b");
    assert_eq!(input.cursor, 2);
    input.delete_char();
    assert_eq!(input.input, "ab");
    assert_eq!(input.cursor, 1);
}

#[test]
fn input_clear_and_take() {
    let mut input = InputWidget::new();
    input.insert_char('h');
    input.insert_char('i');
    input.focused = true;
    assert_eq!(input.display_text(), ">hi");
    let text = input.take_input();
    assert_eq!(text, "hi");
    assert_eq!(input.input, "");
    assert_eq!(input.cursor, 0);
    assert!(input.focused);
    input.insert_char('z');
    input.clear();
    assert_eq!(input.input, "");
    assert_eq!(input.cursor, 0);
}

#[test]
fn input_title_and_border() {
    let mut input = InputWidget::new();
    assert_eq!(input.title(), " Input ");
    assert_eq!(input.border_style(), Style::plain());
    input.focused = true;
    assert_eq!(input.border_style(), Style::fg(Color::Yellow));
    input.disabled = true;
    assert_eq!(input.title(), " Input (disabled) ");
    assert_eq!(input.border_style(), Style::fg(Color::DarkGray));
}

#[test]
fn status_messages_and_colors() {
    let mut status = StatusWidget::new();
    assert_eq!(
        status.message,
        "Ready  |  Type a prompt and press Enter to generate  |  Tab: focus  |  Esc: quit"
    );
    assert_eq!(status.style, Style::fg(Color::DarkGray));
    status.set_loading("Generating...".into());
    assert_eq!(status.message, "Generating...");
    assert_eq!(status.style, Style::fg(Color::Yellow));
    status.set_error("failed".into());
    assert_eq!(status.style, Style::fg(Color::Red));
    status.set_success("ok".into());
    assert_eq!(status.message, "ok");
    assert_eq!(status.style, Style::fg(Color::Green));
    status.set_ready();
    assert_eq!(status.message, "Ready  |  Tab: focus  |  PgUp/PgDn: scroll  |  Esc: quit");
    assert_eq!(status.style, Style::fg(Color::DarkGray));
    assert_eq!(StatusWidget::default().style, Style::fg(Color::DarkGray));
}

#[test]
fn chat_scroll_stays_within_messages() {
    let mut chat = ChatWidget::new();
    let steps = ["up", "add", "up", "up", "add", "add", "add", "up", "down", "up", "up", "add", "down", "down", "up"];
    for step in steps {
        match step {
            "up" => chat.scroll_up(),
            "down" => chat.scroll_down(),
            _ => chat.add_message("m".into(), MessageRole::User),
        }
        assert!(chat.scroll_offset <= chat.messages.len().saturating_sub(1));
    }
}

#[test]
fn ascii_editing_keeps_cursor_on_text() {
    let mut input = InputWidget::new();
    for c in "hello".chars() {
        input.insert_char(c);
    }
    input.cursor = 2;
    input.insert_char('X');
    assert_eq!(input.input, "heXllo");
    input.delete_char();
    assert_eq!(input.input, "hello");
    assert_eq!(input.cursor, 2);
    input.delete_char();
    assert_eq!(input.input, "hllo");
    assert_eq!(input.cursor, 1);
    assert!(input.cursor <= input.input.len());
}
