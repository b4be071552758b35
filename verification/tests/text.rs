use todo_tui::components::Text;
use todo_tui::term::TermOp;
use todo_tui::traits::Draw;

fn mv(x: u16, y: u16) -> TermOp {
    TermOp::MoveTo(x, y)
}

fn pr(text: &str) -> TermOp {
    TermOp::Print(text.to_string())
}

fn drawn(text: &Text) -> Vec<TermOp> {
    let mut out = Vec::new();
    assert_eq!(text.draw(&mut out), Ok(()));
    out
}

/// All that the operations print, in order.
fn printed(ops: &[TermOp]) -> String {
    let mut all = String::new();
    for op in ops {
        if let TermOp::Print(text) = op {
            all.push_str(text);
        }
    }
    all
}

#[test]
fn new_text_is_the_greeting_at_the_origin() {
    let text = Text::new();
    assert_eq!(text.content, "Hello, world!");
    assert_eq!(text.max_length, None);
    assert_eq!((text.x, text.y), (0, 0));
    assert_eq!(drawn(&text), vec![mv(0, 0), pr("Hello, world!")]);
}

#[test]
fn default_text_is_empty() {
    let text = Text::default();
    assert_eq!(text.content, "");
    assert_eq!(text.max_length, None);
    assert_eq!((text.x, text.y), (0, 0));
    assert_eq!(drawn(&text), vec![mv(0, 0), pr("")]);
}

#[test]
fn text_without_limit_is_written_once() {
    for content in ["", "a", "buy milk", "a\u{310}e\u{301}o\u{308}\u{332}", "a\r\nb\u{1F1F7}\u{1F1FA}"] {
        let text = Text { content, max_length: None, x: 3, y: 4 };
        let out = drawn(&text);
        assert_eq!(out, vec![mv(3, 4), pr(content)]);
        assert_eq!(printed(&out), content);
    }
}

#[test]
fn limited_pass_writes_whole_clusters() {
    let content = "a\u{310}e\u{301}o\u{308}\u{332}";
    let text = Text { content, max_length: Some(2), x: 0, y: 1 };
    assert_eq!(drawn(&text), vec![mv(0, 1), pr(content), pr("a\u{310}"), pr("e\u{301}")]);
}

#[test]
fn limited_pass_keeps_line_break_and_flags_together() {
    let content = "a\r\nb\u{1F1F7}\u{1F1FA}\u{1F1F8}\u{1F1F9}";
    let text = Text { content, max_length: Some(10), x: 0, y: 0 };
    assert_eq!(
        drawn(&text),
        vec![
            mv(0, 0),
            pr(content),
            pr("a"),
            pr("\r\n"),
            pr("b"),
            pr("\u{1F1F7}\u{1F1FA}"),
            pr("\u{1F1F8}\u{1F1F9}"),
        ]
    );
}

#[test]
fn limited_pass_never_writes_more_than_the_limit() {
    let content = "buy milk";
    for max in 0..12u16 {
        let text = Text { content, max_length: Some(max), x: 0, y: 0 };
        let out = drawn(&text);
        assert_eq!(out[0], mv(0, 0));
        assert_eq!(out[1], pr(content));
        let limited = &out[2..];
        assert_eq!(limited.len(), usize::from(max).min(8));
        assert!(limited.len() <= usize::from(max));
        assert_eq!(printed(limited), &content[..limited.len()]);
    }
}

#[test]
fn limit_zero_writes_only_the_full_pass() {
    let text = Text { content: "abc", max_length: Some(0), x: 2, y: 2 };
    assert_eq!(drawn(&text), vec![mv(2, 2), pr("abc")]);
}

#[test]
fn largest_limit_writes_every_cluster_once_more() {
    let text = Text { content: "abc", max_length: Some(u16::MAX), x: 0, y: 0 };
    assert_eq!(drawn(&text), vec![mv(0, 0), pr("abc"), pr("a"), pr("b"), pr("c")]);
}

#[test]
fn draw_clusters_takes_the_clusters_as_given() {
    let text = Text { content: "abcd", max_length: Some(3), x: 7, y: 9 };
    let mut out = vec![TermOp::Clear];
    text.draw_clusters(&vec!["ab", "cd"], &mut out);
    assert_eq!(out, vec![TermOp::Clear, mv(7, 9), pr("abcd"), pr("ab"), pr("cd")]);

    let mut out = Vec::new();
    text.draw_clusters(&vec!["a", "b", "c", "d"], &mut out);
    assert_eq!(out, vec![mv(7, 9), pr("abcd"), pr("a"), pr("b"), pr("c")]);

    let unlimited = Text { content: "abcd", max_length: None, x: 7, y: 9 };
    let mut out = Vec::new();
    unlimited.draw_clusters(&vec!["a", "b", "c", "d"], &mut out);
    assert_eq!(out, vec![mv(7, 9), pr("abcd")]);
}
