use testnet_orchestrator::dashboard::{
    handle_key, node_title_of, node_titles, tab_label, ui, view_log, Key, Phase,
};
use testnet_orchestrator::tabs::App;

#[test]
fn arrows_move_the_active_tab() {
    let titles = node_titles(3);
    let mut app = App::new(&titles);
    assert_eq!(handle_key(&mut app, Key::Right), Phase::Running);
    assert_eq!(app.index, 1);
    assert_eq!(handle_key(&mut app, Key::Left), Phase::Running);
    assert_eq!(app.index, 0);
    assert_eq!(handle_key(&mut app, Key::Left), Phase::Running);
    assert_eq!(app.index, 2);
    assert_eq!(handle_key(&mut app, Key::Right), Phase::Running);
    assert_eq!(app.index, 0);
}

#[test]
fn q_asks_for_the_shutdown_and_moves_nothing() {
    let titles = node_titles(3);
    let mut app = App::new(&titles);
    app.index = 1;
    assert_eq!(handle_key(&mut app, Key::Char('q')), Phase::ShuttingDown);
    assert_eq!(app.index, 1);
}

#[test]
fn other_keys_are_ignored() {
    let titles = node_titles(3);
    let mut app = App::new(&titles);
    app.index = 2;
    for key in [Key::Other, Key::Char('Q'), Key::Char('x'), Key::Char(' ')] {
        assert_eq!(handle_key(&mut app, key), Phase::Running);
        assert_eq!(app.index, 2);
    }
}

#[test]
fn titles_name_the_nodes() {
    assert_eq!(node_title_of(0), "Node 0");
    assert_eq!(node_title_of(17), "Node 17");
    assert_eq!(node_titles(3), vec!["Node 0", "Node 1", "Node 2"]);
    assert!(node_titles(0).is_empty());
}

#[test]
fn a_label_is_the_first_character_and_the_rest() {
    let label = tab_label("Node 3");
    assert_eq!(label.first, "N");
    assert_eq!(label.rest, "ode 3");
    let single = tab_label("x");
    assert_eq!((single.first.as_str(), single.rest.as_str()), ("x", ""));
    let empty = tab_label("");
    assert_eq!((empty.first.as_str(), empty.rest.as_str()), ("", ""));
    let wide = tab_label("äbc");
    assert_eq!((wide.first.as_str(), wide.rest.as_str()), ("ä", "bc"));
}

#[test]
fn the_panel_shows_the_window_of_the_log() {
    let log: String = (0..100).map(|i| format!("line {}\n", i)).collect();
    let panel = view_log(log, 4);
    assert_eq!(panel.title, "Node 4");
    assert_eq!(panel.text.lines().count(), 34);
    assert!(panel.text.starts_with("line 66\n"));
    assert!(panel.text.ends_with("line 99"));
}

#[test]
fn the_panel_shows_a_short_log_whole() {
    let panel = view_log("booting\nready\n".to_string(), 0);
    assert_eq!(panel.title, "Node 0");
    assert_eq!(panel.text, "booting\nready\n");
}

#[test]
fn the_frame_shows_the_active_node() {
    let titles = node_titles(3);
    let mut app = App::new(&titles);
    app.index = 1;
    let logs = vec!["zero\n".to_string(), "one\n".to_string(), "two\n".to_string()];
    let screen = ui(&app, &logs);
    assert_eq!(screen.selected, 1);
    assert_eq!(screen.panel.title, "Node 1");
    assert_eq!(screen.panel.text, "one\n");
    assert_eq!(screen.tabs.len(), 3);
    for (i, tab) in screen.tabs.iter().enumerate() {
        assert_eq!(tab.first, "N");
        assert_eq!(tab.rest, format!("ode {}", i));
    }
    assert_eq!(logs, vec!["zero\n", "one\n", "two\n"]);
}

#[test]
fn the_frame_windows_a_long_log_and_leaves_it_alone() {
    let titles = node_titles(2);
    let app = App::new(&titles);
    let long: String = (0..100).map(|i| format!("{}\n", i)).collect();
    let logs = vec![long.clone(), String::new()];
    let screen = ui(&app, &logs);
    assert_eq!(screen.panel.text.lines().count(), 34);
    assert_eq!(screen.panel.text.lines().next(), Some("66"));
    assert_eq!(logs[0], long);
    assert_eq!(logs[0].lines().count(), 100);
}
