use testnet_orchestrator::tabs::App;

fn titles(n: usize) -> Vec<String> {
    (0..n).map(|i| format!("Node {}", i)).collect()
}

#[test]
fn new_starts_at_the_first_tab() {
    let titles = titles(5);
    let app = App::new(&titles);
    assert_eq!(app.index, 0);
    assert_eq!(app.titles, vec!["Node 0", "Node 1", "Node 2", "Node 3", "Node 4"]);
}

#[test]
fn new_without_titles() {
    let titles = titles(0);
    let app = App::new(&titles);
    assert_eq!(app.index, 0);
    assert!(app.titles.is_empty());
}

#[test]
fn next_walks_to_the_right_and_wraps() {
    let titles = titles(3);
    let mut app = App::new(&titles);
    app.next();
    assert_eq!(app.index, 1);
    app.next();
    assert_eq!(app.index, 2);
    app.next();
    assert_eq!(app.index, 0);
}

#[test]
fn previous_from_the_first_tab_is_the_last() {
    let titles = titles(5);
    let mut app = App::new(&titles);
    app.previous();
    assert_eq!(app.index, 4);
    app.previous();
    assert_eq!(app.index, 3);
}

#[test]
fn next_from_the_last_tab_is_the_first() {
    let titles = titles(5);
    let mut app = App::new(&titles);
    app.index = 4;
    app.next();
    assert_eq!(app.index, 0);
}

#[test]
fn a_single_tab_stays_active() {
    let titles = titles(1);
    let mut app = App::new(&titles);
    app.next();
    assert_eq!(app.index, 0);
    app.previous();
    assert_eq!(app.index, 0);
}

#[test]
fn next_and_previous_undo_each_other() {
    let titles = titles(7);
    let mut app = App::new(&titles);
    for start in 0..7 {
        app.index = start;
        app.next();
        app.previous();
        assert_eq!(app.index, start);
        app.previous();
        app.next();
        assert_eq!(app.index, start);
    }
}

#[test]
fn a_full_round_comes_back() {
    let titles = titles(6);
    let mut app = App::new(&titles);
    app.index = 2;
    for _ in 0..6 {
        app.next();
    }
    assert_eq!(app.index, 2);
    for _ in 0..6 {
        app.previous();
    }
    assert_eq!(app.index, 2);
    assert_eq!(app.titles.len(), 6);
}

#[test]
fn previous_needs_no_titles_away_from_the_first_tab() {
    let titles = titles(0);
    let mut app = App::new(&titles);
    app.index = 3;
    app.previous();
    assert_eq!(app.index, 2);
}
