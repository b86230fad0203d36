use game_center::menu::App;

#[test]
fn standard_menu_lists_two_games() {
    let app = App::new();
    assert_eq!(app.games(), &["Chess", "Minesweeper"]);
    assert_eq!(app.selected(), Some(0));
    assert!(app.running());
}

#[test]
fn default_matches_new() {
    let app = App::default();
    assert_eq!(app.games(), &["Chess", "Minesweeper"]);
    assert_eq!(app.selected(), Some(0));
    assert!(app.running());
}

#[test]
fn down_down_up_up_clamps_at_both_ends() {
    let mut app = App::new();
    assert_eq!(app.selected(), Some(0));
    app.move_down();
    assert_eq!(app.selected(), Some(1));
    app.move_down();
    assert_eq!(app.selected(), Some(1));
    app.move_up();
    assert_eq!(app.selected(), Some(0));
    app.move_up();
    assert_eq!(app.selected(), Some(0));
}

#[test]
fn repeated_move_up_reaches_top_and_stays() {
    let mut app = App::with_games(vec!["a", "b", "c", "d", "e"]);
    for _ in 0..4 {
        app.move_down();
    }
    assert_eq!(app.selected(), Some(4));
    for _ in 0..4 {
        app.move_up();
    }
    assert_eq!(app.selected(), Some(0));
    for _ in 0..3 {
        app.move_up();
        assert_eq!(app.selected(), Some(0));
    }
}

#[test]
fn repeated_move_down_reaches_bottom_and_stays() {
    let mut app = App::with_games(vec!["a", "b", "c", "d", "e"]);
    app.move_down();
    assert_eq!(app.selected(), Some(1));
    for _ in 0..3 {
        app.move_down();
    }
    assert_eq!(app.selected(), Some(4));
    for _ in 0..3 {
        app.move_down();
        assert_eq!(app.selected(), Some(4));
    }
}

#[test]
fn single_entry_catalog_never_moves() {
    let mut app = App::with_games(vec!["Chess"]);
    app.move_up();
    assert_eq!(app.selected(), Some(0));
    app.move_down();
    assert_eq!(app.selected(), Some(0));
}

#[test]
fn empty_catalog_has_no_selection() {
    let mut app = App::with_games(Vec::new());
    assert_eq!(app.selected(), None);
    app.move_down();
    app.move_up();
    assert_eq!(app.selected(), None);
}

#[test]
fn largest_catalog_reaches_last_entry() {
    let games: Vec<&'static str> = vec!["g"; 256];
    let mut app = App::with_games(games);
    for _ in 0..300 {
        app.move_down();
    }
    assert_eq!(app.selected(), Some(255));
}

#[test]
fn quit_stops_running_and_keeps_selection() {
    let mut app = App::new();
    app.move_down();
    app.tick();
    app.quit();
    assert!(!app.running());
    assert_eq!(app.selected(), Some(1));
}
