use ununi::config::{font, hotkey, Hotkey, KEY_F1};
use ununi::keys::{character_typed, invoked, key_down, key_up, popup_origin};
use ununi::record::CharacterRecord;
use ununi::state::{InputEvent, QueryOutcome, QueryState, TargetWindow};
use ununi::window::{label, visible_rows, Row};

fn records(count: usize) -> Vec<CharacterRecord> {
    (0..count)
        .map(|i| CharacterRecord::new(format!("NAME {}", i), "Block".to_string(), 0x41 + i as u64))
        .collect()
}

fn state_with(count: usize) -> QueryState {
    let mut state = QueryState::new();
    state.apply_outcome(QueryOutcome::Replaced(records(count)));
    state
}

#[test]
fn a_label_shows_character_name_and_block() {
    let record =
        CharacterRecord::new("LATIN CAPITAL LETTER A".to_string(), "Basic Latin".to_string(), 0x41);
    assert_eq!(label(&record), "A: LATIN CAPITAL LETTER A - Basic Latin");
    let record = CharacterRecord::new("SNOWMAN".to_string(), "".to_string(), 0x2603);
    assert_eq!(label(&record), "\u{2603}: SNOWMAN - ");
}

#[test]
fn a_label_shows_a_space_for_what_is_no_character() {
    let record = CharacterRecord::new("SURROGATE".to_string(), "High".to_string(), 0xD800);
    assert_eq!(label(&record), " : SURROGATE - High");
}

#[test]
fn no_rows_without_results() {
    assert_eq!(visible_rows(&QueryState::new()), vec![]);
    assert_eq!(visible_rows(&state_with(0)), vec![]);
}

#[test]
fn few_results_are_all_visible() {
    let rows = visible_rows(&state_with(3));
    assert_eq!(
        rows,
        vec![
            Row { label: "A: NAME 0 - Block".to_string(), selected: true },
            Row { label: "B: NAME 1 - Block".to_string(), selected: false },
            Row { label: "C: NAME 2 - Block".to_string(), selected: false },
        ]
    );
}

#[test]
fn a_page_of_many_results_is_visible() {
    let mut state = state_with(25);
    let rows = visible_rows(&state);
    assert_eq!(rows.len(), 20);
    assert_eq!(rows[19].label, "T: NAME 19 - Block");
    for _ in 0..22 {
        state.apply(InputEvent::NavigateDown);
    }
    assert_eq!((state.selected_index(), state.scroll_offset()), (22, 4));
    let rows = visible_rows(&state);
    assert_eq!(rows.len(), 20);
    assert_eq!(rows[0].label, "E: NAME 4 - Block");
    assert_eq!(rows[19].label, "X: NAME 23 - Block");
    let selected: Vec<usize> = (0..20).filter(|i| rows[*i].selected).collect();
    assert_eq!(selected, vec![18]);
    for _ in 0..10 {
        state.apply(InputEvent::NavigateDown);
    }
    assert_eq!((state.selected_index(), state.scroll_offset()), (24, 6));
    let rows = visible_rows(&state);
    assert_eq!(rows.len(), 19);
    assert!(rows[18].selected);
    assert_eq!(rows[18].label, "Y: NAME 24 - Block");
}

#[test]
fn keys_that_go_down_stand_for_events() {
    assert_eq!(key_down(0x08), Some(InputEvent::Backspace));
    assert_eq!(key_down(0x2E), Some(InputEvent::DeleteForward));
    assert_eq!(key_down(0x1B), Some(InputEvent::Escape));
    assert_eq!(key_down(0x11), Some(InputEvent::ModifierPressed));
    assert_eq!(key_down(0x0D), Some(InputEvent::Confirm));
    assert_eq!(key_down(0x26), Some(InputEvent::NavigateUp));
    assert_eq!(key_down(0x28), Some(InputEvent::NavigateDown));
    assert_eq!(key_down(0x25), Some(InputEvent::CursorLeft));
    assert_eq!(key_down(0x27), Some(InputEvent::CursorRight));
    assert_eq!(key_down(0x13), Some(InputEvent::Quit));
    assert_eq!(key_down(0x41), None);
    assert_eq!(key_down(0x70), None);
    assert_eq!(key_down(0), None);
    assert_eq!(key_down(u32::MAX), None);
}

#[test]
fn only_the_modifier_counts_when_it_goes_up() {
    assert_eq!(key_up(0x11), Some(InputEvent::ModifierReleased));
    assert_eq!(key_up(0x0D), None);
    assert_eq!(key_up(0x10), None);
}

#[test]
fn a_typed_unit_is_a_character_unless_it_is_half_a_pair() {
    assert_eq!(character_typed(0x41), Some(InputEvent::Character('A')));
    assert_eq!(character_typed(0x0D), Some(InputEvent::Character('\r')));
    assert_eq!(character_typed(0x2603), Some(InputEvent::Character('\u{2603}')));
    assert_eq!(character_typed(0xD7FF), Some(InputEvent::Character('\u{D7FF}')));
    assert_eq!(character_typed(0xD800), None);
    assert_eq!(character_typed(0xDBFF), None);
    assert_eq!(character_typed(0xDC00), None);
    assert_eq!(character_typed(0xDFFF), None);
    assert_eq!(character_typed(0xE000), Some(InputEvent::Character('\u{E000}')));
    assert_eq!(character_typed(0xFFFF), Some(InputEvent::Character('\u{FFFF}')));
}

#[test]
fn the_hotkey_takes_the_window_with_the_focus() {
    assert_eq!(invoked(0x1234), InputEvent::Invoke(Some(TargetWindow(0x1234))));
    assert_eq!(invoked(0), InputEvent::Invoke(None));
}

#[test]
fn the_picker_is_shown_below_the_caret() {
    assert_eq!(popup_origin(100, 200, 30, 48), (130, 252));
    assert_eq!(popup_origin(-1920, 0, 10, 20), (-1910, 24));
    assert_eq!(popup_origin(0, 0, 0, 0), (0, 4));
    assert_eq!(popup_origin(i32::MAX, i32::MAX, 1, 0), (i32::MAX, i32::MAX));
    assert_eq!(popup_origin(i32::MIN, i32::MIN, -1, -10), (i32::MIN, i32::MIN));
    assert_eq!(popup_origin(i32::MAX, i32::MIN, i32::MIN, i32::MAX), (-1, 3));
}

#[test]
fn the_hotkey_is_alt_and_f1_unless_the_settings_say_otherwise() {
    assert_eq!(hotkey(None, None), Hotkey { modifier: 1, key: 0x70 });
    assert_eq!(KEY_F1, 0x70);
    assert_eq!(hotkey(Some("alt"), None).modifier, 1);
    assert_eq!(hotkey(Some("ctrl"), None).modifier, 2);
    assert_eq!(hotkey(Some("shift"), None).modifier, 4);
    assert_eq!(hotkey(Some("windows"), None).modifier, 8);
    assert_eq!(hotkey(Some("super"), None).modifier, 1);
    assert_eq!(hotkey(Some("Ctrl"), None).modifier, 1);
    assert_eq!(hotkey(Some(""), None).modifier, 1);
    assert_eq!(hotkey(Some("shift"), Some(0x20)), Hotkey { modifier: 4, key: 0x20 });
    assert_eq!(hotkey(None, Some(0)).key, 0);
    assert_eq!(hotkey(None, Some(0x1_0000_0071)).key, 0x71);
    assert_eq!(hotkey(None, Some(-1)).key, u32::MAX);
    assert_eq!(hotkey(None, Some(i64::MIN)).key, 0);
    assert_eq!(hotkey(None, Some(i64::MAX)).key, u32::MAX);
}

#[test]
fn the_font_is_consolas_unless_the_settings_name_one() {
    assert_eq!(font(None), "Consolas");
    assert_eq!(font(Some("Arial")), "Arial");
    assert_eq!(font(Some("")), "");
}
