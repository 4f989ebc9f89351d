use lk::decoder::Event;
use lk::finder::{FuzzyFinder, StepAction};
use lk::item::Item;
use lk::list::List;

fn finder(names: &[&str], lines_to_show: i8) -> FuzzyFinder<String> {
    let items: Vec<Item<String>> = names
        .iter()
        .map(|n| Item::new(n.to_string(), n.to_string()))
        .collect();
    let mut f = FuzzyFinder::new(items, lines_to_show, 1, 50).unwrap();
    f.update_matches();
    f
}

fn selected_name(f: &FuzzyFinder<String>) -> Option<String> {
    f.get_selected().map(|item| item.name.clone())
}

#[test]
fn empty_query_matches_all_in_input_order() {
    let f = finder(&["charlie", "alpha", "bravo"], 5);
    let names: Vec<&str> = f
        .matches
        .iter()
        .map(|&i| f.all_items[i].name.as_str())
        .collect();
    assert_eq!(names, vec!["charlie", "alpha", "bravo"]);
}

#[test]
fn query_filters_to_scored_items() {
    let mut f = finder(&["alpha", "beta", "alcove"], 5);
    f.append('a');
    f.append('l');
    let names: Vec<&str> = f
        .matches
        .iter()
        .map(|&i| f.all_items[i].name.as_str())
        .collect();
    assert_eq!(names.len(), 2);
    assert!(names.contains(&"alpha"));
    assert!(names.contains(&"alcove"));
    for &i in f.matches.iter() {
        let score = f.all_items[i].score.as_ref().unwrap();
        assert_eq!(score.matched_positions, vec![0, 1]);
    }
}

#[test]
fn backspace_restores_all_matches() {
    let mut f = finder(&["alpha", "beta"], 5);
    f.append('x');
    assert_eq!(f.matches.len(), 0);
    f.backspace();
    assert_eq!(f.matches.len(), 2);
    assert_eq!(f.search_term, "");
    // A backspace on an empty query stays a no-op.
    f.backspace();
    assert_eq!(f.search_term, "");
    assert_eq!(f.matches.len(), 2);
}

#[test]
fn no_wraparound_at_either_end() {
    let mut f = finder(&["one", "two", "three"], 5);
    f.up();
    f.up();
    assert_eq!(selected_name(&f).unwrap(), "one");
    f.down();
    f.down();
    f.down();
    f.down();
    assert_eq!(selected_name(&f).unwrap(), "three");
}

#[test]
fn scrolling_keeps_window_bounds() {
    let mut f = finder(&["a1", "a2", "a3", "a4", "a5"], 2);
    assert_eq!(selected_name(&f).unwrap(), "a1");
    f.down();
    f.down();
    f.down();
    assert_eq!(selected_name(&f).unwrap(), "a4");
    assert_eq!(f.list.scroll_offset, 2);
    assert!(f.list.selected_index < f.list.lines_to_show);
    f.up();
    f.up();
    f.up();
    assert_eq!(selected_name(&f).unwrap(), "a1");
    assert_eq!(f.list.scroll_offset, 0);
}

#[test]
fn selection_tracks_item_across_query_edits() {
    let mut f = finder(&["alpha", "bravo", "charlie"], 5);
    f.down();
    assert_eq!(selected_name(&f).unwrap(), "bravo");
    // Narrow to the names that contain an r: bravo stays selected even
    // though its position changed.
    f.append('r');
    let names: Vec<&str> = f
        .matches
        .iter()
        .map(|&i| f.all_items[i].name.as_str())
        .collect();
    assert!(names.contains(&"bravo") && names.contains(&"charlie"));
    assert_eq!(selected_name(&f).unwrap(), "bravo");
}

#[test]
fn selection_resets_when_item_disappears() {
    let mut f = finder(&["alpha", "bravo", "delta"], 5);
    f.down();
    assert_eq!(selected_name(&f).unwrap(), "bravo");
    f.append('l');
    assert_eq!(f.list.scroll_offset, 0);
    assert_eq!(f.list.selected_index, 0);
}

#[test]
fn list_rejects_zero_capacity() {
    assert!(List::new(0).is_err());
    assert!(List::new(-3).is_err());
    match List::new(0) {
        Err(err) => assert!(!err.message().is_empty()),
        Ok(_) => panic!("a zero capacity must be rejected"),
    }
    assert!(FuzzyFinder::<String>::new(Vec::new(), 0, 1, 50).is_err());
}

#[test]
fn repaint_is_idempotent_after_first_paint() {
    let mut f = finder(&["alpha", "beta", "alcove"], 3);
    f.append('a');
    let first = f.render();
    let second = f.render();
    let third = f.render();
    assert_eq!(second, third);
    // The first paint additionally reserves the rows.
    assert!(first.len() >= second.len());
}

#[test]
fn repaint_reflects_model_state_only() {
    let mut f = finder(&["alpha", "beta"], 3);
    let mut g = finder(&["alpha", "beta"], 3);
    let _ = f.render();
    let _ = g.render();
    assert_eq!(f.render(), g.render());
}

#[test]
fn end_to_end_typed_query_down_enter() {
    let mut f = finder(&["alpha", "beta", "alcove"], 2);
    assert!(matches!(f.step(Event::Insert('a')), StepAction::Repaint));
    assert!(matches!(f.step(Event::Insert('l')), StepAction::Repaint));
    let names: Vec<&str> = f
        .matches
        .iter()
        .map(|&i| f.all_items[i].name.as_str())
        .collect();
    assert_eq!(names, vec!["alpha", "alcove"]);
    assert!(matches!(f.step(Event::NavigateDown), StepAction::Repaint));
    match f.step(Event::Confirm) {
        StepAction::Finish(Some(payload)) => assert_eq!(payload, "alcove"),
        _ => panic!("expected a confirmed selection"),
    }
}

#[test]
fn end_to_end_enter_on_empty_collection_returns_none() {
    let mut f = FuzzyFinder::<String>::new(Vec::new(), 2, 1, 50).unwrap();
    f.update_matches();
    assert!(matches!(f.step(Event::Insert('q')), StepAction::Repaint));
    match f.step(Event::Confirm) {
        StepAction::Finish(None) => {}
        _ => panic!("expected the session to end with no selection"),
    }
}

#[test]
fn confirm_over_no_matches_keeps_the_session_running() {
    let mut f = finder(&["alpha", "beta"], 2);
    assert!(matches!(f.step(Event::Insert('z')), StepAction::Repaint));
    assert_eq!(f.matches.len(), 0);
    // Confirming an empty result set over a non-empty collection is a
    // no-op: the session keeps running and can still select after the
    // query is widened again.
    assert!(matches!(f.step(Event::Confirm), StepAction::Repaint));
    assert!(matches!(f.step(Event::Backspace), StepAction::Repaint));
    match f.step(Event::Confirm) {
        StepAction::Finish(Some(payload)) => assert_eq!(payload, "alpha"),
        _ => panic!("expected a confirmed selection"),
    }
}

#[test]
fn prompt_row_follows_the_anchor_when_the_session_scrolled() {
    // Starting at row 48 of a 45-row terminal with one reserved row, the
    // session scrolls four rows, so the anchor is row 44 and the prompt
    // sits at row 46.
    let mut f = FuzzyFinder::<String>::new(Vec::new(), 1, 48, 45).unwrap();
    assert_eq!(f.positive_space_remaining, 4);
    f.update_matches();
    let _first = f.render();
    let repaint = f.render();
    let expected = format!(
        "{}{}{}{}{}{}{}{}{}",
        "\u{1b}[s\u{1b}[u",
        "\u{1b}[44;1H",
        "\u{1b}[2K\n",
        "\u{1b}[2K",
        "\u{1b}[46;2H",
        "\u{1b}[2K",
        "\u{1b}[?25h",
        "\u{1b}[46;1H",
        "\u{1b}[38;2;113;190;242m$\u{1b}[39m "
    );
    assert_eq!(repaint, expected);
}

#[test]
fn end_to_end_cancel_returns_none_any_time() {
    let mut f = finder(&["alpha", "beta"], 2);
    assert!(matches!(f.step(Event::Insert('a')), StepAction::Repaint));
    match f.step(Event::Cancel) {
        StepAction::Finish(None) => {}
        _ => panic!("expected the session to end with no selection"),
    }
}

#[test]
fn overflow_rows_computed_from_cursor_and_height() {
    let f = FuzzyFinder::<String>::new(Vec::new(), 5, 48, 50).unwrap();
    assert_eq!(f.positive_space_remaining, 3);
    assert_eq!(f.console_offset, 48);
    let g = FuzzyFinder::<String>::new(Vec::new(), 5, 10, 50).unwrap();
    assert_eq!(g.positive_space_remaining, 0);
}

#[test]
fn repaint_bytes_are_exact_for_an_empty_model() {
    let mut f = FuzzyFinder::<String>::new(Vec::new(), 1, 1, 50).unwrap();
    f.update_matches();
    let _first = f.render();
    let repaint = f.render();
    let expected = format!(
        "{}{}{}{}{}{}{}{}{}{}",
        "\u{1b}[s\u{1b}[u",
        "\u{1b}[1;1H",
        "\u{1b}[2K\n",
        "\u{1b}[2K",
        "\u{1b}[3;2H",
        "\u{1b}[2K",
        "\u{1b}[?25h",
        "\u{1b}[3;1H",
        "\u{1b}[38;2;113;190;242m$\u{1b}[39m ",
        ""
    );
    assert_eq!(repaint, expected);
}

#[test]
fn coloured_line_highlights_matched_positions() {
    let plain = lk::render::get_coloured_line(&vec![0, 2], "abc", false);
    assert_eq!(
        plain,
        "\u{1b}[48;2;50;50;50m \u{1b}[49m  \
         \u{1b}[48;2;13;88;138ma\u{1b}[49m\
         b\u{1b}[48;2;13;88;138mc\u{1b}[49m"
    );
    let selected = lk::render::get_coloured_line(&vec![0, 2], "abc", true);
    assert_eq!(
        selected,
        "\u{1b}[48;2;50;50;50m\u{1b}[38;2;168;204;140m>\u{1b}[39m\u{1b}[49m\
         \u{1b}[38;2;50;50;50m  \u{1b}[39m\
         \u{1b}[48;2;50;50;50m\u{1b}[49m\u{1b}[48;2;13;88;138ma\u{1b}[49m\
         \u{1b}[48;2;50;50;50mb\u{1b}[49m\u{1b}[48;2;13;88;138mc\u{1b}[49m\
         \u{1b}[48;2;50;50;50m\u{1b}[49m"
    );
}
