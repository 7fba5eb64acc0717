use cmdpick::menu::render_lines;
use cmdpick::options::generate_options;

#[test]
fn render_marks_only_selected_line() {
    let opts = generate_options("Hello World");
    let lines = render_lines(&opts, 1);
    assert_eq!(lines.len(), 4);
    for (i, line) in lines.iter().take(3).enumerate() {
        assert_eq!(line.text, opts[i]);
        assert_eq!(line.bold, i == 1);
    }
}

#[test]
fn render_appends_usage_hint() {
    let opts = generate_options("x");
    let lines = render_lines(&opts, 0);
    assert_eq!(lines[3].text, "Use up/down arrows to navigate, Enter to select");
    assert!(!lines[3].bold);
}

#[test]
fn render_selected_first_by_default() {
    let opts = vec![String::from("a"), String::from("b")];
    let lines = render_lines(&opts, 0);
    assert_eq!(lines.len(), 3);
    assert!(lines[0].bold);
    assert!(!lines[1].bold);
}
