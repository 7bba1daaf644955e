use vimbo::catalog::Entry;
use vimbo::engine::App;

fn catalog_entries() -> Vec<Entry> {
    vimbo::catalog::default_cheats()
}

/// The reference filter, written independently with std's own Unicode-aware
/// lowercasing and substring search over the documented haystack layout.
fn naive_filter(q: &str) -> Vec<usize> {
    let entries = catalog_entries();
    let lq = q.to_lowercase();
    entries
        .iter()
        .enumerate()
        .filter_map(|(i, e)| {
            let haystack = format!(
                "{} {} {}",
                e.category.to_lowercase(),
                e.command.to_lowercase(),
                e.description.to_lowercase()
            );
            if lq.is_empty() || haystack.contains(&lq) {
                Some(i)
            } else {
                None
            }
        })
        .collect()
}

fn engine_filter(q: &str) -> Vec<usize> {
    let mut app = App::new(None);
    app.set_query(q);
    app.current_view().rows.iter().map(|r| r.index).collect()
}

#[test]
fn filter_agrees_with_independent_reference() {
    for q in [
        "", "y", "yy", "char", "char ", "SEARCH", "Move", "zzz", ":q", "q!", "Ctrl", "ctrl + w",
        " / ", "tab", "buf", "a", "VIM", "help {topic}",
    ] {
        assert_eq!(engine_filter(q), naive_filter(q), "query {:?}", q);
    }
}

#[test]
fn filter_is_case_insensitive() {
    assert_eq!(engine_filter("SEARCH"), engine_filter("search"));
    assert_eq!(engine_filter("Yank"), engine_filter("yank"));
    assert_eq!(engine_filter("cTrL"), engine_filter("ctrl"));
}

#[test]
fn filtered_view_is_strictly_increasing() {
    for q in ["", "y", "move", "a", " ", "Ctrl"] {
        let indices = engine_filter(q);
        for w in indices.windows(2) {
            assert!(w[0] < w[1], "query {:?}: {} !< {}", q, w[0], w[1]);
        }
        for &i in indices.iter() {
            assert!(i < 70);
        }
    }
}

fn assert_selection_in_bounds(app: &App) {
    let snap = app.current_view();
    match snap.selected {
        None => assert_eq!(snap.rows.len(), 0),
        Some(s) => assert!(s < snap.rows.len()),
    }
}

#[test]
fn selection_stays_in_bounds_under_operations() {
    let mut app = App::new(None);
    assert_selection_in_bounds(&app);
    app.move_selection(10);
    assert_selection_in_bounds(&app);
    for c in "move".chars() {
        app.push_char(c);
        assert_selection_in_bounds(&app);
    }
    app.select_last();
    assert_selection_in_bounds(&app);
    for c in "qqq".chars() {
        app.push_char(c);
        assert_selection_in_bounds(&app);
    }
    app.move_selection(-10);
    assert_selection_in_bounds(&app);
    app.pop_char();
    assert_selection_in_bounds(&app);
    app.clear_query();
    assert_selection_in_bounds(&app);
    app.select_last();
    assert_selection_in_bounds(&app);
    app.set_query("Ctrl");
    assert_selection_in_bounds(&app);
    app.select_first();
    assert_selection_in_bounds(&app);
}

#[test]
fn pop_char_on_empty_query_changes_nothing() {
    let mut app = App::new(None);
    app.move_selection(3);
    app.toggle_help();
    let before = app.current_view();
    app.pop_char();
    let after = app.current_view();
    let idx = |s: &vimbo::engine::Snapshot| s.rows.iter().map(|r| r.index).collect::<Vec<_>>();
    assert_eq!(idx(&before), idx(&after));
    assert_eq!(before.selected, after.selected);
    assert_eq!(before.query, after.query);
    assert_eq!(before.help_visible, after.help_visible);
    assert_eq!(before.total, after.total);
}

#[test]
fn move_selection_at_bounds_is_a_noop() {
    let mut app = App::new(None);
    app.select_first();
    app.move_selection(-1);
    assert_eq!(app.current_view().selected, Some(0));
    app.select_last();
    app.move_selection(1);
    assert_eq!(app.current_view().selected, Some(69));
}

#[test]
fn clear_query_equals_popping_every_character() {
    for q in ["char ", "yank", "zzz", "A", ""] {
        let mut a = App::new(Some(String::from(q)));
        let mut b = App::new(Some(String::from(q)));
        a.select_last();
        b.select_last();
        a.clear_query();
        let mut pops = q.chars().count();
        while pops > 0 {
            b.pop_char();
            pops -= 1;
        }
        let sa = a.current_view();
        let sb = b.current_view();
        let idx = |s: &vimbo::engine::Snapshot| s.rows.iter().map(|r| r.index).collect::<Vec<_>>();
        assert_eq!(idx(&sa), idx(&sb), "query {:?}", q);
        assert_eq!(sa.selected, sb.selected, "query {:?}", q);
        assert_eq!(sa.query, sb.query, "query {:?}", q);
        assert_eq!(sa.help_visible, sb.help_visible, "query {:?}", q);
    }
}

#[test]
fn non_ascii_queries_are_accepted() {
    let mut app = App::new(None);
    app.push_char('\u{00e9}');
    let snap = app.current_view();
    assert_eq!(snap.rows.len(), 0);
    assert_eq!(snap.selected, None);
    app.pop_char();
    assert_eq!(app.current_view().rows.len(), 70);
}
