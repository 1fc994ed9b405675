use logana::command::{extract_template_partial, CommandBinding, CommandMode, CommandNext};
use logana::key::{Key, KeyInput, KeyResult};

fn key(k: Key) -> KeyInput {
    KeyInput { key: k, ctrl: false, alt: false, shift: false, meta: false }
}

fn ch(c: char) -> KeyInput {
    key(Key::Char(c))
}

fn ctrl(c: char) -> KeyInput {
    KeyInput { key: Key::Char(c), ctrl: true, alt: false, shift: false, meta: false }
}

#[test]
fn command_typing_and_backspace() {
    let mut m = CommandMode::with_history(String::new(), 0, vec![]);
    let none: Vec<String> = vec![];
    let (next, res, fx) = m.handle_key(None, ch('f'), &none, None);
    assert_eq!(next, CommandNext::Stay);
    assert!(matches!(res, KeyResult::Handled));
    assert!(fx.clear_error);
    assert_eq!(m.input, "f");
    assert_eq!(m.cursor, 1);
    m.handle_key(None, ch('i'), &none, None);
    m.handle_key(None, key(Key::Backspace), &none, None);
    assert_eq!(m.input, "f");
    assert_eq!(m.cursor, 1);
}

#[test]
fn command_confirm_trims_and_cancel_returns_to_filters() {
    let mut m = CommandMode::with_history("  wrap  ".to_string(), 8, vec![]);
    let none: Vec<String> = vec![];
    let (next, res, _) = m.handle_key(Some(CommandBinding::Confirm), key(Key::Enter), &none, None);
    assert_eq!(next, CommandNext::Normal);
    assert!(matches!(res, KeyResult::ExecuteCommand(ref c) if c == "wrap"));
    let mut m = CommandMode::with_history(String::new(), 0, vec![]);
    let (next, _, fx) = m.handle_key(Some(CommandBinding::Cancel), key(Key::Esc), &none, Some(3));
    assert_eq!(next, CommandNext::FilterManagement(3));
    assert!(fx.clear_filter_context);
}

#[test]
fn command_history_walks_up_and_down() {
    let hist = vec!["first".to_string(), "second".to_string()];
    let mut m = CommandMode::with_history(String::new(), 0, hist);
    let none: Vec<String> = vec![];
    m.handle_key(None, key(Key::Up), &none, None);
    assert_eq!(m.input, "second");
    assert_eq!(m.history_index, Some(1));
    m.handle_key(None, key(Key::Up), &none, None);
    assert_eq!(m.input, "first");
    m.handle_key(None, key(Key::Up), &none, None);
    assert_eq!(m.input, "first");
    m.handle_key(None, key(Key::Down), &none, None);
    assert_eq!(m.input, "second");
    m.handle_key(None, key(Key::Down), &none, None);
    assert_eq!(m.input, "");
    assert_eq!(m.history_index, None);
}

#[test]
fn command_tab_cycles_and_space_accepts() {
    let comps = vec!["filter".to_string(), "exclude".to_string(), "export".to_string()];
    let mut m = CommandMode::with_history("e".to_string(), 1, vec![]);
    m.handle_key(None, key(Key::Tab), &comps, None);
    assert_eq!(m.completion_index, Some(0));
    m.handle_key(None, key(Key::BackTab), &comps, None);
    assert_eq!(m.completion_index, Some(2));
    m.handle_key(None, key(Key::Tab), &comps, None);
    assert_eq!(m.completion_index, Some(0));
    m.handle_key(None, key(Key::Tab), &comps, None);
    m.handle_key(None, ch(' '), &comps, None);
    assert_eq!(m.input, "exclude");
    assert_eq!(m.cursor, 7);
    assert_eq!(m.completion_index, None);
}

#[test]
fn template_partial_extraction() {
    assert_eq!(extract_template_partial("export out.md -t mark"), Some("mark".to_string()));
    assert_eq!(extract_template_partial("export out.md --template "), Some(String::new()));
    assert_eq!(extract_template_partial("export out.md --template"), None);
    assert_eq!(extract_template_partial("filter foo -t x"), None);
    assert_eq!(extract_template_partial("export"), None);
    assert_eq!(extract_template_partial("  export a -t  "), Some(String::new()));
}

#[test]
fn command_ctrl_char_still_types() {
    let mut m = CommandMode::with_history(String::new(), 0, vec![]);
    let none: Vec<String> = vec![];
    m.handle_key(None, ctrl('x'), &none, None);
    assert_eq!(m.input, "x");
}
