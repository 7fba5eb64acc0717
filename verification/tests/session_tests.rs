use cmdpick::options::{extract_payload, generate_options};
use cmdpick::session::{resolve_keys, Key, Outcome, Selector, TermMode};

#[test]
fn index_clamped_at_top() {
    let mut sel = Selector::new(3);
    for _ in 0..10 {
        let out = sel.handle_key(Key::Up);
        assert_eq!(out, Outcome::Pending { rerender: false });
        assert_eq!(sel.index, 0);
    }
}

#[test]
fn index_clamped_at_bottom() {
    let mut sel = Selector::new(3);
    for _ in 0..10 {
        sel.handle_key(Key::Down);
        assert!(sel.index <= 2);
    }
    assert_eq!(sel.index, 2);
}

#[test]
fn up_and_down_move_by_one() {
    let mut sel = Selector::new(3);
    assert_eq!(sel.handle_key(Key::Down), Outcome::Pending { rerender: true });
    assert_eq!(sel.index, 1);
    assert_eq!(sel.handle_key(Key::Up), Outcome::Pending { rerender: true });
    assert_eq!(sel.index, 0);
}

#[test]
fn other_keys_are_ignored() {
    let mut sel = Selector::new(3);
    let out = sel.handle_key(Key::Other);
    assert_eq!(out, Outcome::Pending { rerender: false });
    assert_eq!(sel.index, 0);
}

#[test]
fn session_starts_in_raw_alternate_mode() {
    let sel = Selector::new(3);
    assert_eq!(sel.mode, TermMode { raw: true, alternate: true });
    assert_eq!(sel.index, 0);
}

#[test]
fn enter_selects_and_restores_mode() {
    let mut sel = Selector::new(3);
    sel.handle_key(Key::Down);
    let out = sel.handle_key(Key::Enter);
    assert_eq!(out, Outcome::Selected { index: 1 });
    assert_eq!(sel.mode, TermMode { raw: false, alternate: false });
}

#[test]
fn cancel_resolves_and_restores_mode() {
    let mut sel = Selector::new(3);
    let out = sel.handle_key(Key::Cancel);
    assert_eq!(out, Outcome::Cancelled);
    assert_eq!(sel.mode, TermMode { raw: false, alternate: false });
}

#[test]
fn resolve_selects_third_option() {
    let keys = vec![Key::Down, Key::Down, Key::Enter];
    assert_eq!(resolve_keys(3, &keys), Some(Some(2)));
}

#[test]
fn resolve_cancelled() {
    let keys = vec![Key::Up, Key::Cancel];
    assert_eq!(resolve_keys(3, &keys), Some(None));
}

#[test]
fn resolve_nothing_without_resolving_key() {
    let keys = vec![Key::Down, Key::Up, Key::Other];
    assert_eq!(resolve_keys(3, &keys), None);
}

#[test]
fn hello_world_scenario() {
    let opts = generate_options("Hello World");
    assert_eq!(opts[0], "Option 1: ls -la");
    assert_eq!(opts[1], "Option 2: hello world");
    assert_eq!(opts[2], "Option 3: dlroW olleH");
    let keys = vec![Key::Down, Key::Down, Key::Enter];
    let chosen = resolve_keys(opts.len(), &keys).unwrap().unwrap();
    assert_eq!(chosen, 2);
    assert_eq!(extract_payload(&opts[chosen]), "dlroW olleH");
}
