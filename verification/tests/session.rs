use query_rs::config::{Config, Provider};
use query_rs::layout::Area;
use query_rs::session::{App, CommandOutcome, Key, KeyOutcome, MouseKind, PendingSave, HELP_TEXT};

fn type_line(app: &mut App, line: &str) {
    for c in line.chars() {
        match app.handle_key(Key::Char(c, false)) {
            KeyOutcome::Continue => {}
            _ => panic!("typing gave something other than Continue"),
        }
    }
}

fn enter(app: &mut App) -> KeyOutcome {
    app.handle_key(Key::Enter)
}

fn run(app: &mut App, line: &str) -> KeyOutcome {
    type_line(app, line);
    enter(app)
}

fn status(app: &App) -> String {
    app.screen(100, 30).status
}

fn current(app: &App) -> Option<String> {
    app.config().current_model().cloned()
}

fn pending(out: KeyOutcome) -> PendingSave {
    match out {
        KeyOutcome::Save(p) => p,
        _ => panic!("expected a pending save"),
    }
}

fn app_with(models: &[&str]) -> App {
    let mut config = Config::new();
    for m in models {
        config.add_model(Provider::OpenAICompat, m.to_string(), "key".to_string(), None);
    }
    App::new(config)
}

#[test]
fn add_model_uses_provider_default_urls() {
    let mut c = Config::new();
    c.add_model(Provider::Gemini, "g".to_string(), "k1".to_string(), None);
    c.add_model(Provider::OpenAICompat, "o".to_string(), "k2".to_string(), None);
    c.add_model(Provider::OpenAICompat, "l".to_string(), "k3".to_string(), Some("http://localhost:11434/v1".to_string()));
    assert_eq!(c.get("g").unwrap().base_url, "https://generativelanguage.googleapis.com");
    assert_eq!(c.get("o").unwrap().base_url, "https://api.openai.com/v1");
    assert_eq!(c.get("l").unwrap().base_url, "http://localhost:11434/v1");
    assert_eq!(c.get("g").unwrap().provider, Provider::Gemini);
    assert_eq!(c.get("o").unwrap().api_key, "k2");
    assert_eq!(c.get("o").unwrap().name, "o");
}

#[test]
fn add_model_selects_only_the_first() {
    let mut c = Config::new();
    assert!(c.current_model().is_none());
    c.add_model(Provider::Gemini, "first".to_string(), "k".to_string(), None);
    assert_eq!(c.current_model().map(|s| s.as_str()), Some("first"));
    c.add_model(Provider::Gemini, "second".to_string(), "k".to_string(), None);
    assert_eq!(c.current_model().map(|s| s.as_str()), Some("first"));
}

#[test]
fn add_model_replaces_same_name() {
    let mut c = Config::new();
    c.add_model(Provider::Gemini, "m".to_string(), "old".to_string(), None);
    c.add_model(Provider::OpenAICompat, "m".to_string(), "new".to_string(), None);
    assert_eq!(c.entries().len(), 1);
    assert_eq!(c.get("m").unwrap().api_key, "new");
    assert_eq!(c.get("m").unwrap().provider, Provider::OpenAICompat);
}

#[test]
fn registry_insert_remove_and_sorting() {
    let mut c = Config::new();
    assert!(c.any_key().is_none());
    for n in ["zeta", "alpha", "Mid", "beta"] {
        c.add_model(Provider::Gemini, n.to_string(), "k".to_string(), None);
    }
    assert_eq!(c.sorted_names(), vec!["Mid", "alpha", "beta", "zeta"]);
    assert!(c.contains_key("alpha"));
    let removed = c.remove("alpha").unwrap();
    assert_eq!(removed.name, "alpha");
    assert!(!c.contains_key("alpha"));
    assert!(c.remove("alpha").is_none());
    assert!(c.any_key().is_some());
    assert_eq!(c.sorted_names(), vec!["Mid", "beta", "zeta"]);
}

#[test]
fn model_command_adds_and_selects_after_save() {
    let mut app = app_with(&["existing"]);
    let p = pending(run(&mut app, "/model gemini g key123"));
    assert_eq!(p.on_success, "Model g (gemini) added and selected.");
    assert_eq!(p.select.as_deref(), Some("g"));
    assert_eq!(current(&app).as_deref(), Some("existing"));
    assert_eq!(status(&app), "Press / for commands, Enter to send chat.");
    assert_eq!(app.config().get("g").unwrap().api_key, "key123");
    assert_eq!(app.config().get("g").unwrap().base_url, "https://generativelanguage.googleapis.com");
    app.finish_save(p, None);
    assert_eq!(status(&app), "Model g (gemini) added and selected.");
    assert_eq!(current(&app).as_deref(), Some("g"));
    assert_eq!(app.screen(100, 30).input, "");
    assert_eq!(app.cursor_position(), 0);
}

#[test]
fn model_command_lowercases_provider() {
    let mut app = app_with(&[]);
    let p = pending(run(&mut app, "/model GROQ llama k http://x/v1"));
    assert_eq!(p.on_success, "Model llama (groq) added and selected.");
    let m = app.config().get("llama").unwrap();
    assert_eq!(m.provider, Provider::OpenAICompat);
    assert_eq!(m.base_url, "http://x/v1");
    assert_eq!(current(&app).as_deref(), Some("llama"));
}

#[test]
fn model_command_errors() {
    let mut app = app_with(&["a"]);
    assert!(matches!(run(&mut app, "/model foo n k"), KeyOutcome::Continue));
    assert_eq!(status(&app), "Unknown provider. Use: gemini, openai, groq, ollama");
    assert!(!app.config().contains_key("n"));
    assert!(matches!(run(&mut app, "/model openai n"), KeyOutcome::Continue));
    assert_eq!(status(&app), "Usage: /model <provider> <name> <api_key> [base_url]");
    assert!(matches!(run(&mut app, "/modelx"), KeyOutcome::Continue));
    assert_eq!(status(&app), "Usage: /model <provider> <name> <api_key> [base_url]");
}

#[test]
fn failed_save_reports_error_and_keeps_selection() {
    let mut app = app_with(&["a"]);
    let p = pending(run(&mut app, "/model ollama b k"));
    app.finish_save(p, Some("disk full".to_string()));
    assert_eq!(status(&app), "Error saving config: disk full");
    assert_eq!(current(&app).as_deref(), Some("a"));
    assert!(app.config().contains_key("b"));
}

#[test]
fn switch_command() {
    let mut app = app_with(&["a", "b"]);
    assert!(matches!(run(&mut app, "/switch b"), KeyOutcome::Continue));
    assert_eq!(status(&app), "Switched to model: b");
    assert_eq!(current(&app).as_deref(), Some("b"));
    run(&mut app, "/switch c");
    assert_eq!(status(&app), "Model c not found.");
    assert_eq!(current(&app).as_deref(), Some("b"));
    run(&mut app, "/switch");
    assert_eq!(status(&app), "Usage: /switch <model_name>");
}

#[test]
fn remove_command_reselects() {
    let mut app = app_with(&["a", "b"]);
    let p = pending(run(&mut app, "/remove a"));
    assert_eq!(p.on_success, "Model a removed.");
    assert!(p.select.is_none());
    assert_eq!(current(&app).as_deref(), Some("b"));
    app.finish_save(p, None);
    assert_eq!(status(&app), "Model a removed.");
    let p = pending(run(&mut app, "/remove b"));
    app.finish_save(p, None);
    assert!(current(&app).is_none());
    run(&mut app, "/remove b");
    assert_eq!(status(&app), "Model b not found.");
    run(&mut app, "/remove");
    assert_eq!(status(&app), "Usage: /remove <model_name>");
}

#[test]
fn remove_other_keeps_selection() {
    let mut app = app_with(&["a", "b"]);
    let p = pending(run(&mut app, "/remove b"));
    app.finish_save(p, None);
    assert_eq!(current(&app).as_deref(), Some("a"));
}

#[test]
fn rename_command() {
    let mut app = app_with(&["a", "b"]);
    let p = pending(run(&mut app, "/rename a c"));
    assert_eq!(p.on_success, "Model a renamed to c.");
    assert!(!app.config().contains_key("a"));
    assert_eq!(app.config().get("c").unwrap().name, "c");
    assert_eq!(current(&app).as_deref(), Some("c"));
    app.finish_save(p, None);
    assert_eq!(status(&app), "Model a renamed to c.");
    run(&mut app, "/rename x y");
    assert_eq!(status(&app), "Model x not found.");
    run(&mut app, "/rename c");
    assert_eq!(status(&app), "Usage: /rename <old_name> <new_name>");
}

#[test]
fn rename_round_trip_restores_registry() {
    let mut app = app_with(&["a", "b"]);
    let before = app.config().sorted_names();
    let p = pending(run(&mut app, "/rename a z"));
    app.finish_save(p, None);
    let p = pending(run(&mut app, "/rename z a"));
    app.finish_save(p, None);
    assert_eq!(app.config().sorted_names(), before);
    assert_eq!(app.config().get("a").unwrap().name, "a");
    assert_eq!(current(&app).as_deref(), Some("a"));
}

#[test]
fn help_clear_and_unknown_commands() {
    let mut app = app_with(&["a"]);
    run(&mut app, "/help");
    assert!(app.screen(100, 30).show_help);
    assert_eq!(status(&app), "Help menu opened. Press ESC to close.");
    assert!(matches!(app.handle_key(Key::Esc), KeyOutcome::Continue));
    assert!(!app.screen(100, 30).show_help);
    assert_eq!(status(&app), "Help menu closed.");
    assert!(matches!(app.handle_key(Key::Esc), KeyOutcome::Quit));
    run(&mut app, "hello");
    app.receive_response(Ok("hi".to_string()));
    run(&mut app, "/clear");
    assert_eq!(status(&app), "Chat history cleared.");
    assert_eq!(app.screen(100, 30).body, "");
    run(&mut app, "/help me");
    assert_eq!(status(&app), "Unknown command.");
    run(&mut app, "/");
    assert_eq!(status(&app), "Unknown command.");
}

#[test]
fn handle_command_directly_consumes_line() {
    let mut app = app_with(&[]);
    type_line(&mut app, "/nothing");
    assert!(matches!(app.handle_command(), CommandOutcome::Done));
    assert_eq!(app.screen(100, 30).input, "");
    assert_eq!(status(&app), "Unknown command.");
    // The command leaves the cursor alone; only Enter puts it back.
    assert_eq!(app.cursor_position(), 8);
    assert!(!app.key_fits(Key::Char('a', false)));
    assert!(!app.key_fits(Key::Backspace));
    assert!(app.key_fits(Key::Char('c', true)));
    assert!(app.key_fits(Key::Left));
    app.handle_key(Key::Home);
    assert!(app.key_fits(Key::Char('a', false)));
}

#[test]
fn enter_on_command_puts_cursor_at_start() {
    let mut app = app_with(&[]);
    run(&mut app, "/help");
    assert_eq!(app.cursor_position(), 0);
    assert!(app.key_fits(Key::Backspace));
}

#[test]
fn model_command_from_lowercased_word() {
    let mut app = app_with(&[]);
    let words: Vec<String> = ["/model", "GEMINI", "g", "k"].iter().map(|s| s.to_string()).collect();
    let p = match app.add_model_from_words("gemini", &words) {
        CommandOutcome::Save(p) => p,
        CommandOutcome::Done => panic!("expected a pending save"),
    };
    assert_eq!(p.on_success, "Model g (gemini) added and selected.");
    assert_eq!(app.config().get("g").unwrap().provider, Provider::Gemini);
    assert!(matches!(app.add_model_from_words("GEMINI", &words), CommandOutcome::Done));
    assert_eq!(status(&app), "Unknown provider. Use: gemini, openai, groq, ollama");
    assert_eq!(app.config().len(), 1);
}

#[test]
fn frame_and_click_in_given_areas() {
    let app0 = app_with(&["zed", "alpha"]);
    let areas = app0.screen(100, 30).areas;
    let frame = app0.screen_in(app0.screen(100, 30).areas);
    assert_eq!(frame.areas.sidebar, areas.sidebar);
    assert_eq!(frame.areas.body, Area { x: 0, y: 3, width: 100, height: 23 });
    let mut app = app0;
    app.handle_mouse_in(MouseKind::LeftDown, 5, 5, frame.areas);
    assert_eq!(current(&app).as_deref(), Some(frame.models[1].0.as_str()));
}

#[test]
fn sending_without_model() {
    let mut app = app_with(&[]);
    assert!(matches!(run(&mut app, "hi there"), KeyOutcome::Continue));
    assert_eq!(status(&app), "No model selected. Use /model command.");
    assert_eq!(app.screen(100, 30).input, "");
    assert!(matches!(enter(&mut app), KeyOutcome::Continue));
}

#[test]
fn sending_with_model_and_answer() {
    let mut app = app_with(&["m"]);
    let req = match run(&mut app, "hello") {
        KeyOutcome::Send(r) => r,
        _ => panic!("expected a request"),
    };
    assert_eq!(req.model.name, "m");
    assert_eq!(req.messages.len(), 1);
    assert_eq!(req.messages[0].role, "user");
    assert_eq!(req.messages[0].content, "hello");
    assert_eq!(status(&app), "Waiting for m...");
    // While the answer is awaited, Enter sends nothing and keeps the line.
    type_line(&mut app, "more");
    assert!(matches!(enter(&mut app), KeyOutcome::Continue));
    assert_eq!(app.screen(100, 30).input, "more");
    app.receive_response(Ok("answer".to_string()));
    assert_eq!(status(&app), "Response received.");
    assert_eq!(app.screen(100, 30).body, "**You**: hello\n\n**AI**: answer\n\n");
    let req = match enter(&mut app) {
        KeyOutcome::Send(r) => r,
        _ => panic!("expected a request"),
    };
    assert_eq!(req.messages.len(), 3);
    assert_eq!(req.messages[1].role, "assistant");
    app.receive_response(Err("timeout".to_string()));
    assert_eq!(status(&app), "Error: timeout");
}

#[test]
fn selected_but_missing_model_drops_line() {
    let mut config = Config::new();
    config.set_current_model(Some("ghost".to_string()));
    let mut app = App::new(config);
    assert!(matches!(run(&mut app, "hi"), KeyOutcome::Continue));
    assert_eq!(app.screen(100, 30).input, "");
    assert_eq!(status(&app), "Press / for commands, Enter to send chat.");
}

#[test]
fn line_editing_keys() {
    let mut app = app_with(&[]);
    type_line(&mut app, "abd");
    app.handle_key(Key::Left);
    type_line(&mut app, "c");
    assert_eq!(app.screen(100, 30).input, "abcd");
    assert_eq!(app.cursor_position(), 3);
    app.handle_key(Key::Home);
    app.handle_key(Key::Left);
    assert_eq!(app.cursor_position(), 0);
    app.handle_key(Key::Delete);
    assert_eq!(app.screen(100, 30).input, "bcd");
    app.handle_key(Key::Backspace);
    assert_eq!(app.screen(100, 30).input, "bcd");
    app.handle_key(Key::End);
    assert_eq!(app.cursor_position(), 3);
    app.handle_key(Key::Right);
    assert_eq!(app.cursor_position(), 3);
    app.handle_key(Key::Delete);
    assert_eq!(app.screen(100, 30).input, "bcd");
    app.handle_key(Key::Backspace);
    assert_eq!(app.screen(100, 30).input, "bc");
    assert_eq!(app.cursor_position(), 2);
    assert!(matches!(app.handle_key(Key::Other), KeyOutcome::Continue));
}

#[test]
fn control_c_quits_other_chars_insert() {
    let mut app = app_with(&[]);
    assert!(matches!(app.handle_key(Key::Char('c', true)), KeyOutcome::Quit));
    assert_eq!(app.screen(100, 30).input, "");
    app.handle_key(Key::Char('c', false));
    app.handle_key(Key::Char('x', true));
    assert_eq!(app.screen(100, 30).input, "cx");
}

#[test]
fn type_then_erase_restores_line() {
    let mut app = app_with(&[]);
    type_line(&mut app, "hello");
    app.handle_key(Key::Left);
    app.handle_key(Key::Left);
    app.handle_key(Key::Char('Z', false));
    app.handle_key(Key::Backspace);
    assert_eq!(app.screen(100, 30).input, "hello");
    assert_eq!(app.cursor_position(), 3);
}

fn long_chat() -> App {
    let mut app = app_with(&["m"]);
    for _ in 0..15 {
        run(&mut app, "hi");
        app.receive_response(Ok("yo".to_string()));
    }
    app
}

#[test]
fn scroll_keys_saturate_and_round_trip() {
    let mut app = long_chat();
    // 30 messages make 61 wrapped lines; the chat pane shows 21.
    assert_eq!(app.screen(100, 30).body_scroll, 40);
    app.handle_key(Key::PageUp);
    assert_eq!(app.screen(100, 30).body_scroll, 30);
    app.handle_key(Key::Up);
    assert_eq!(app.screen(100, 30).body_scroll, 29);
    app.handle_key(Key::Down);
    app.handle_key(Key::PageDown);
    assert_eq!(app.screen(100, 30).body_scroll, 40);
    app.handle_key(Key::Down);
    assert_eq!(app.screen(100, 30).body_scroll, 40);
    for _ in 0..10 {
        app.handle_key(Key::PageUp);
    }
    // Held at the top line.
    assert_eq!(app.screen(100, 30).body_scroll, 0);
}

#[test]
fn help_scroll_is_separate() {
    let mut app = long_chat();
    run(&mut app, "/help");
    let s = app.screen(100, 30);
    assert!(s.show_help);
    assert_eq!(s.body, HELP_TEXT);
    let top = s.body_scroll;
    app.handle_key(Key::Up);
    assert_eq!(app.screen(100, 30).body_scroll, top.saturating_sub(1));
    app.handle_key(Key::Esc);
    assert_eq!(app.screen(100, 30).body_scroll, 40);
}

#[test]
fn screen_layout_and_sidebar() {
    let mut app = app_with(&["zed", "alpha"]);
    type_line(&mut app, "abc");
    let s = app.screen(100, 30);
    assert_eq!(s.areas.title, Area { x: 0, y: 0, width: 100, height: 3 });
    assert_eq!(s.areas.input, Area { x: 0, y: 26, width: 100, height: 3 });
    assert_eq!(s.areas.status, Area { x: 0, y: 29, width: 100, height: 1 });
    assert_eq!(s.areas.sidebar, Area { x: 0, y: 3, width: 20, height: 23 });
    assert_eq!(s.areas.chat, Area { x: 20, y: 3, width: 80, height: 23 });
    assert_eq!(s.title, "Current Model: zed");
    assert_eq!(s.models, vec![("alpha".to_string(), false), ("zed".to_string(), true)]);
    assert_eq!((s.cursor_x, s.cursor_y), (4, 27));
    assert_eq!(s.input_scroll, 0);
    assert_eq!(app_with(&[]).screen(100, 30).title, "Current Model: None");
}

#[test]
fn input_cursor_wraps_with_box_width() {
    let mut app = app_with(&[]);
    type_line(&mut app, "0123456789012");
    // A 12-column terminal leaves 10 columns inside the input box.
    let s = app.screen(12, 30);
    assert_eq!((s.cursor_x, s.cursor_y, s.input_scroll), (4, 27, 1));
}

#[test]
fn mouse_click_selects_sidebar_row() {
    let mut app = app_with(&["zed", "alpha"]);
    app.handle_mouse(MouseKind::LeftDown, 5, 4, 100, 30);
    assert_eq!(current(&app).as_deref(), Some("alpha"));
    assert_eq!(status(&app), "Switched to model: alpha");
    app.handle_mouse(MouseKind::LeftDown, 5, 5, 100, 30);
    assert_eq!(current(&app).as_deref(), Some("zed"));
    // Below the listed names, on the border, or outside: nothing changes.
    app.handle_mouse(MouseKind::LeftDown, 5, 6, 100, 30);
    app.handle_mouse(MouseKind::LeftDown, 0, 4, 100, 30);
    app.handle_mouse(MouseKind::LeftDown, 50, 4, 100, 30);
    app.handle_mouse(MouseKind::Other, 5, 4, 100, 30);
    assert_eq!(current(&app).as_deref(), Some("zed"));
}

#[test]
fn mouse_wheel_scrolls_chat_only_inside() {
    let mut app = long_chat();
    app.handle_mouse(MouseKind::ScrollUp, 50, 10, 100, 30);
    assert_eq!(app.screen(100, 30).body_scroll, 37);
    app.handle_mouse(MouseKind::ScrollUp, 5, 10, 100, 30);
    assert_eq!(app.screen(100, 30).body_scroll, 37);
    app.handle_mouse(MouseKind::ScrollDown, 50, 10, 100, 30);
    assert_eq!(app.screen(100, 30).body_scroll, 40);
}
