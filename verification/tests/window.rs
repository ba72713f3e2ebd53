use testnet_orchestrator::window::{
    count_newlines, join_from, split_lines, window, VISIBLE_LINE_BREAKS,
};

fn numbered(n: usize) -> String {
    (0..n).map(|i| format!("line {}\n", i)).collect()
}

fn expected_window(text: &str) -> String {
    let breaks = text.bytes().filter(|&b| b == b'\n').count();
    if breaks > 35 {
        let mut lines: Vec<&str> = text.lines().collect();
        lines.drain(0..breaks - 34);
        lines.join("\n")
    } else {
        text.to_string()
    }
}

#[test]
fn short_log_is_shown_whole() {
    assert_eq!(window(String::new()), "");
    assert_eq!(window("one\ntwo\n".to_string()), "one\ntwo\n");
    let exactly = numbered(35);
    assert_eq!(window(exactly.clone()), exactly);
}

#[test]
fn hundred_lines_show_the_last_thirty_four() {
    let text = numbered(100);
    let shown = window(text.clone());
    let want: Vec<String> = (66..100).map(|i| format!("line {}", i)).collect();
    assert_eq!(shown, want.join("\n"));
    assert_eq!(shown.lines().count(), 34);
    assert_eq!(text, numbered(100));
}

#[test]
fn thirty_six_lines_drop_the_first_two() {
    let shown = window(numbered(36));
    assert!(shown.starts_with("line 2\n"));
    assert!(shown.ends_with("line 35"));
    assert_eq!(shown.lines().count(), 34);
}

#[test]
fn an_unfinished_last_line_is_shown_too() {
    let mut text = numbered(40);
    text.push_str("partial");
    let shown = window(text);
    assert_eq!(shown.lines().count(), 35);
    assert!(shown.starts_with("line 6\n"));
    assert!(shown.ends_with("line 39\npartial"));
}

#[test]
fn carriage_returns_before_line_breaks_are_dropped() {
    let text: String = (0..50).map(|i| format!("row {}\r\n", i)).collect();
    let shown = window(text);
    assert!(!shown.contains('\r'));
    assert!(shown.starts_with("row 16\nrow 17\n"));
    assert!(shown.ends_with("row 49"));
}

#[test]
fn window_agrees_with_the_standard_library() {
    let mut samples = vec![
        numbered(0),
        numbered(1),
        numbered(35),
        numbered(36),
        numbered(37),
        numbered(100),
        "\n".repeat(36),
        "\n".repeat(80),
        "a\r\n".repeat(40),
        "\r\r\n".repeat(40),
        format!("{}tail\r", numbered(40)),
        format!("{}\r", "x\n".repeat(36)),
        format!("{}tail", "\r\n".repeat(50)),
        "äö\n".repeat(60),
    ];
    samples.push(format!("{}{}", "\n\n", numbered(44)));
    for text in samples {
        assert_eq!(window(text.clone()), expected_window(&text), "for {:?}", text);
    }
}

#[test]
fn lines_agree_with_the_standard_library() {
    let samples = [
        "",
        "\n",
        "a",
        "a\n",
        "a\nb",
        "a\r\nb\r\n",
        "a\rb\n",
        "a\r",
        "\r",
        "\r\n",
        "\r\r\n",
        "a\r\r\nb",
        "\n\n\n",
        "x\n\ny\n",
        "last\r\n\r",
        "ü\r\nß\n",
    ];
    for text in samples {
        let want: Vec<String> = text.lines().map(|l| l.to_string()).collect();
        assert_eq!(split_lines(text), want, "for {:?}", text);
    }
}

#[test]
fn line_breaks_are_counted() {
    assert_eq!(count_newlines(""), 0);
    assert_eq!(count_newlines("abc"), 0);
    assert_eq!(count_newlines("\n"), 1);
    assert_eq!(count_newlines("a\nb\r\nc\n"), 3);
    assert_eq!(count_newlines(&numbered(100)), 100);
}

#[test]
fn lines_are_joined_from_a_place_on() {
    let lines: Vec<String> = vec!["a".into(), "".into(), "b".into(), "c".into()];
    assert_eq!(join_from(&lines, 0), "a\n\nb\nc");
    assert_eq!(join_from(&lines, 1), "\nb\nc");
    assert_eq!(join_from(&lines, 3), "c");
    assert_eq!(join_from(&lines, 4), "");
}

#[test]
fn the_limit_is_thirty_five_line_breaks() {
    assert_eq!(VISIBLE_LINE_BREAKS, 35);
}
