use vimbo::engine::App;
use vimbo::engine::Snapshot;

fn snapshot_sig(app: &App) -> (Vec<usize>, Option<usize>, String, bool, usize) {
    let snap: Snapshot = app.current_view();
    let indices: Vec<usize> = snap.rows.iter().map(|r| r.index).collect();
    let query: String = snap.query.iter().collect();
    (indices, snap.selected, query, snap.help_visible, snap.total)
}

fn type_query(app: &mut App, q: &str) {
    for c in q.chars() {
        app.push_char(c);
    }
}

#[test]
fn startup_no_query_shows_full_catalog() {
    let app = App::new(None);
    let (indices, selected, query, help, total) = snapshot_sig(&app);
    assert_eq!(total, 70);
    assert_eq!(indices.len(), 70);
    let expected: Vec<usize> = (0..70).collect();
    assert_eq!(indices, expected);
    assert_eq!(selected, Some(0));
    assert_eq!(query, "");
    assert!(!help);
}

#[test]
fn startup_with_initial_query_filters_immediately() {
    let app = App::new(Some(String::from("search")));
    let (indices, selected, query, _, _) = snapshot_sig(&app);
    assert_eq!(indices, vec![47, 48, 49, 50, 51]);
    assert_eq!(selected, Some(0));
    assert_eq!(query, "search");
}

#[test]
fn typing_yy_narrows_to_yank_line_entry() {
    let mut app = App::new(None);
    app.select_last();
    app.push_char('y');
    app.push_char('y');
    let snap = app.current_view();
    assert_eq!(snap.rows.len(), 1);
    assert_eq!(snap.rows[0].index, 37);
    assert_eq!(snap.rows[0].entry.command, "yy / Y");
    assert_eq!(snap.rows[0].entry.description, "yank (copy) current line");
    // the old selection (69) was beyond the new length, so it clamps to 0
    assert_eq!(snap.selected, Some(0));
}

#[test]
fn narrowing_clamps_selection_to_last_row() {
    let mut app = App::new(None);
    type_query(&mut app, "char");
    let (indices, _, _, _, _) = snapshot_sig(&app);
    assert_eq!(indices, vec![26, 27, 29, 34, 44]);
    app.select_last();
    assert_eq!(app.current_view().selected, Some(4));
    app.push_char(' ');
    let (indices, selected, _, _, _) = snapshot_sig(&app);
    assert_eq!(indices, vec![26, 27]);
    assert_eq!(selected, Some(1));
}

#[test]
fn empty_view_then_clear_restores_full_view() {
    let mut app = App::new(None);
    type_query(&mut app, "zzz");
    let (indices, selected, _, _, _) = snapshot_sig(&app);
    assert_eq!(indices.len(), 0);
    assert_eq!(selected, None);
    // navigation on an empty view is a no-op
    app.move_selection(1);
    assert_eq!(app.current_view().selected, None);
    app.clear_query();
    let (indices, selected, query, _, _) = snapshot_sig(&app);
    assert_eq!(indices.len(), 70);
    assert_eq!(selected, Some(0));
    assert_eq!(query, "");
}

#[test]
fn toggle_help_twice_changes_nothing_else() {
    let mut app = App::new(Some(String::from("yank")));
    app.move_selection(2);
    let before = snapshot_sig(&app);
    app.toggle_help();
    let mid = snapshot_sig(&app);
    assert!(mid.3);
    assert_eq!(mid.0, before.0);
    assert_eq!(mid.1, before.1);
    assert_eq!(mid.2, before.2);
    app.toggle_help();
    let after = snapshot_sig(&app);
    assert_eq!(after, before);
}

#[test]
fn set_query_replaces_whole_query() {
    let mut app = App::new(Some(String::from("yank")));
    app.set_query("buf");
    let (indices, _, query, _, _) = snapshot_sig(&app);
    assert_eq!(query, "buf");
    assert_eq!(indices, vec![2, 52, 53, 54, 55]);
    app.set_query("");
    let (indices, _, query, _, _) = snapshot_sig(&app);
    assert_eq!(query, "");
    assert_eq!(indices.len(), 70);
}

#[test]
fn move_selection_saturates_and_pages() {
    let mut app = App::new(None);
    app.move_selection(1);
    assert_eq!(app.current_view().selected, Some(1));
    app.move_selection(10);
    assert_eq!(app.current_view().selected, Some(11));
    app.move_selection(-10);
    assert_eq!(app.current_view().selected, Some(1));
    app.move_selection(-10);
    assert_eq!(app.current_view().selected, Some(0));
    app.move_selection(1000);
    assert_eq!(app.current_view().selected, Some(69));
    app.move_selection(10);
    assert_eq!(app.current_view().selected, Some(69));
}

#[test]
fn select_first_and_last_jump_to_the_bounds() {
    let mut app = App::new(Some(String::from("search")));
    app.select_last();
    assert_eq!(app.current_view().selected, Some(4));
    app.select_first();
    assert_eq!(app.current_view().selected, Some(0));
}

#[test]
fn catalog_access_matches_snapshot_rows() {
    let app = App::new(None);
    assert_eq!(app.catalog_len(), 70);
    let snap = app.current_view();
    for row in snap.rows.iter() {
        let e = app.entry_at(row.index);
        assert_eq!(e.category, row.entry.category);
        assert_eq!(e.command, row.entry.command);
        assert_eq!(e.description, row.entry.description);
    }
    assert_eq!(app.entry_at(0).command, ":q");
    assert_eq!(app.entry_at(69).command, "u / Ctrl + r");
}
