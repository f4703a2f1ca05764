use ununi::corpus::load_corpus;
use ununi::engine::{assemble, catalog_schema, Catalog, SearchEngine};
use ununi::index::StoredFields;
use ununi::error::ErrorKind;
use ununi::picker::Picker;
use ununi::record::CharacterRecord;
use ununi::state::{InputEvent, QueryOutcome, RESULT_LIMIT};

fn catalog_of(document: &str) -> Catalog {
    let index = tantivy::Index::create_in_ram(catalog_schema());
    let catalog = Catalog::attach(index).expect("the schema has the record fields");
    let records = load_corpus(document.as_bytes()).expect("the document is well formed");
    catalog.populate(&records).expect("the index takes the records");
    catalog
}

fn engine_on(document: &str) -> SearchEngine {
    catalog_of(document).engine().expect("the index can be read")
}

fn replaced(outcome: QueryOutcome) -> Vec<CharacterRecord> {
    match outcome {
        QueryOutcome::Replaced(records) => records,
        QueryOutcome::Unchanged => panic!("the query did not parse"),
    }
}

const ONE_LETTER: &str = r#"<?xml version="1.0" encoding="utf-8"?>
<ucd xmlns="http://www.unicode.org/ns/2003/ucd/1.0">
 <repertoire>
  <group blk="Basic Latin" age="1.1">
   <char cp="0041" age="1.1" na="LATIN CAPITAL LETTER A" na1=""/>
  </group>
 </repertoire>
</ucd>"#;

const TWO_BLOCKS: &str = r#"<ucd>
 <repertoire>
  <group blk="Arrows">
   <char cp="2190" na="LEFTWARDS ARROW"/>
  </group>
  <group blk="Miscellaneous Symbols">
   <char cp="2603" na="SNOWMAN"/>
  </group>
 </repertoire>
</ucd>"#;

fn many_digits(count: usize) -> String {
    let mut document = String::from("<ucd><group blk=\"Numbers\">");
    for i in 0..count {
        document.push_str(&format!("<char cp=\"{:04X}\" na=\"DIGIT SIGN {}\"/>", 0x1000 + i, i));
    }
    document.push_str("</group></ucd>");
    document
}

#[test]
fn one_letter_is_found_by_a_word_of_its_name() {
    let engine = engine_on(ONE_LETTER);
    let found = replaced(engine.run_query("capital").unwrap());
    assert_eq!(
        found,
        vec![CharacterRecord::new(
            "LATIN CAPITAL LETTER A".to_string(),
            "Basic Latin".to_string(),
            0x41
        )]
    );
}

#[test]
fn a_word_of_one_name_finds_that_character_only() {
    let engine = engine_on(TWO_BLOCKS);
    let found = replaced(engine.run_query("snowman").unwrap());
    assert_eq!(found.len(), 1);
    assert_eq!(found[0].code_point, 0x2603);
    assert_eq!(found[0].block, "Miscellaneous Symbols");
    let found = replaced(engine.run_query("leftwards").unwrap());
    assert_eq!(found.len(), 1);
    assert_eq!(found[0].code_point, 0x2190);
}

#[test]
fn the_block_name_is_searched_too() {
    let engine = engine_on(TWO_BLOCKS);
    let found = replaced(engine.run_query("arrows").unwrap());
    assert_eq!(found.len(), 1);
    assert_eq!(found[0].name, "LEFTWARDS ARROW");
}

#[test]
fn words_match_in_either_case() {
    let engine = engine_on(ONE_LETTER);
    assert_eq!(replaced(engine.run_query("Capital").unwrap()).len(), 1);
    assert_eq!(replaced(engine.run_query("LATIN").unwrap()).len(), 1);
    assert_eq!(replaced(engine.run_query("latin").unwrap()).len(), 1);
}

#[test]
fn several_words_match_any_of_them() {
    let engine = engine_on(TWO_BLOCKS);
    let found = replaced(engine.run_query("snowman arrow").unwrap());
    assert_eq!(found.len(), 2);
}

#[test]
fn white_space_around_the_query_does_not_count() {
    let engine = engine_on(ONE_LETTER);
    assert_eq!(replaced(engine.run_query("  capital \t\n").unwrap()).len(), 1);
    assert_eq!(replaced(engine.run_query("\u{3000}capital\u{a0}").unwrap()).len(), 1);
}

#[test]
fn an_empty_query_has_no_results() {
    let engine = engine_on(ONE_LETTER);
    assert_eq!(replaced(engine.run_query("").unwrap()), vec![]);
    assert_eq!(replaced(engine.run_query("   ").unwrap()), vec![]);
}

#[test]
fn a_word_that_occurs_nowhere_has_no_results() {
    let engine = engine_on(ONE_LETTER);
    assert_eq!(replaced(engine.run_query("snowman").unwrap()), vec![]);
}

#[test]
fn a_query_that_does_not_parse_changes_nothing() {
    let engine = engine_on(ONE_LETTER);
    for text in ["AND", "OR", "capital AND", "\"capital", "(", "name:", "nofield:a"] {
        assert!(
            matches!(engine.run_query(text), Ok(QueryOutcome::Unchanged)),
            "{:?}",
            text
        );
    }
}

#[test]
fn parse_reports_a_syntax_error() {
    let engine = engine_on(ONE_LETTER);
    let error = match engine.parse("capital AND") {
        Ok(_) => panic!("the text should not parse"),
        Err(error) => error,
    };
    assert_eq!(error.kind(), ErrorKind::QuerySyntax);
    assert!(!error.is_fatal());
    assert!(!error.detail().is_empty());
    assert!(engine.parse("capital").is_ok());
}

#[test]
fn search_returns_the_matches_of_a_parsed_query() {
    let engine = engine_on(TWO_BLOCKS);
    let query = engine.parse("snowman").unwrap();
    let found = engine.search(&query).unwrap();
    assert_eq!(found.len(), 1);
    assert_eq!(found[0].code_point, 0x2603);
}

#[test]
fn a_query_parsed_for_another_schema_is_not_searched_for() {
    let ours = engine_on(TWO_BLOCKS);
    let mut builder = tantivy::schema::Schema::builder();
    builder.add_text_field("extra", tantivy::schema::TEXT);
    builder.add_u64_field("codepnt", tantivy::schema::STORED);
    builder.add_text_field("padding", tantivy::schema::TEXT);
    builder.add_text_field("name", tantivy::schema::TEXT | tantivy::schema::STORED);
    builder.add_text_field("blck", tantivy::schema::TEXT | tantivy::schema::STORED);
    let other_index = tantivy::Index::create_in_ram(builder.build());
    let other_catalog = Catalog::attach(other_index).unwrap();
    other_catalog
        .populate(&vec![CharacterRecord::new("SNOWMAN".to_string(), "Symbols".to_string(), 9731)])
        .unwrap();
    let theirs = other_catalog.engine().unwrap();
    let foreign = theirs.parse("snowman").unwrap();
    assert_eq!(theirs.search(&foreign).unwrap().len(), 1);
    let error = ours.search(&foreign).unwrap_err();
    assert_eq!(error.kind(), ErrorKind::IndexUnavailable);
    let error = ours.search_in(&ours.snapshot(), &foreign).unwrap_err();
    assert_eq!(error.kind(), ErrorKind::IndexUnavailable);
    let own = ours.parse("snowman").unwrap();
    assert!(theirs.search(&own).is_err());
    assert_eq!(ours.search(&own).unwrap().len(), 1);
}

#[test]
fn a_query_parsed_by_another_engine_on_the_same_schema_is_searched_for() {
    let one = engine_on(TWO_BLOCKS);
    let other = engine_on(ONE_LETTER);
    let query = other.parse("snowman").unwrap();
    assert_eq!(other.search(&query).unwrap().len(), 0);
    assert_eq!(one.search(&query).unwrap().len(), 1);
}

#[test]
fn a_snapshot_keeps_what_it_saw() {
    let catalog = catalog_of(ONE_LETTER);
    let engine = catalog.engine().unwrap();
    let before = engine.snapshot();
    let more = load_corpus(TWO_BLOCKS.as_bytes()).unwrap();
    catalog.populate(&more).unwrap();
    engine.refresh().unwrap();
    let after = engine.snapshot();
    let query = engine.parse("snowman").unwrap();
    assert_eq!(engine.search_in(&before, &query).unwrap().len(), 0);
    let found = engine.search_in(&after, &query).unwrap();
    assert_eq!(found.len(), 1);
    assert_eq!(found[0].code_point, 0x2603);
}

#[test]
fn no_more_results_than_the_limit() {
    let engine = engine_on(&many_digits(60));
    let found = replaced(engine.run_query("digit").unwrap());
    assert_eq!(found.len(), 40);
    assert_eq!(RESULT_LIMIT, 40);
    let found = replaced(engine.run_query("numbers").unwrap());
    assert_eq!(found.len(), 40);
}

#[test]
fn fewer_matches_than_the_limit_all_come_back() {
    let engine = engine_on(&many_digits(25));
    let found = replaced(engine.run_query("sign").unwrap());
    assert_eq!(found.len(), 25);
    let mut code_points: Vec<u64> = found.iter().map(|record| record.code_point).collect();
    code_points.sort();
    let expected: Vec<u64> = (0..25).map(|i| 0x1000 + i).collect();
    assert_eq!(code_points, expected);
}

#[test]
fn an_engine_sees_later_commits_after_a_refresh() {
    let catalog = catalog_of(ONE_LETTER);
    let engine = catalog.engine().unwrap();
    assert_eq!(replaced(engine.run_query("snowman").unwrap()).len(), 0);
    let more = load_corpus(TWO_BLOCKS.as_bytes()).unwrap();
    catalog.populate(&more).unwrap();
    engine.refresh().unwrap();
    assert_eq!(replaced(engine.run_query("snowman").unwrap()).len(), 1);
    assert_eq!(replaced(engine.run_query("capital").unwrap()).len(), 1);
}

#[test]
fn records_staged_by_hand_are_found_once_published() {
    let index = tantivy::Index::create_in_ram(catalog_schema());
    let catalog = Catalog::attach(index).unwrap();
    let mut writer = catalog.writer().unwrap();
    let first = vec![CharacterRecord::new("SNOWMAN".to_string(), "Symbols".to_string(), 0x2603)];
    let second = vec![
        CharacterRecord::new("COMET".to_string(), "Symbols".to_string(), 0x2604),
        CharacterRecord::new("BLACK STAR".to_string(), "Symbols".to_string(), 0x2605),
    ];
    catalog.stage(&mut writer, &first).unwrap();
    catalog.stage(&mut writer, &second).unwrap();
    let engine = catalog.engine().unwrap();
    assert_eq!(replaced(engine.run_query("symbols").unwrap()).len(), 0);
    catalog.publish(&mut writer).unwrap();
    engine.refresh().unwrap();
    let mut found: Vec<u64> = replaced(engine.run_query("symbols").unwrap())
        .iter()
        .map(|record| record.code_point)
        .collect();
    found.sort();
    assert_eq!(found, vec![0x2603, 0x2604, 0x2605]);
    assert_eq!(replaced(engine.run_query("star").unwrap())[0], second[1]);
}

#[test]
fn the_writer_that_populated_the_index_takes_more() {
    let index = tantivy::Index::create_in_ram(catalog_schema());
    let catalog = Catalog::attach(index).unwrap();
    let first = load_corpus(ONE_LETTER.as_bytes()).unwrap();
    let mut writer = catalog.populate(&first).unwrap();
    let engine = catalog.engine().unwrap();
    assert_eq!(replaced(engine.run_query("capital").unwrap()).len(), 1);
    assert_eq!(replaced(engine.run_query("snowman").unwrap()).len(), 0);
    let more = load_corpus(TWO_BLOCKS.as_bytes()).unwrap();
    catalog.stage(&mut writer, &more).unwrap();
    catalog.publish(&mut writer).unwrap();
    engine.refresh().unwrap();
    assert_eq!(replaced(engine.run_query("capital").unwrap()).len(), 1);
    assert_eq!(replaced(engine.run_query("snowman").unwrap()).len(), 1);
    assert_eq!(replaced(engine.run_query("arrow").unwrap()).len(), 1);
}

#[test]
fn populating_with_nothing_leaves_the_index_empty() {
    let index = tantivy::Index::create_in_ram(catalog_schema());
    let catalog = Catalog::attach(index).unwrap();
    assert!(catalog.populate(&vec![]).is_ok());
    let engine = catalog.engine().unwrap();
    assert_eq!(replaced(engine.run_query("capital").unwrap()).len(), 0);
}

#[test]
fn staging_nothing_succeeds_and_adds_nothing() {
    let index = tantivy::Index::create_in_ram(catalog_schema());
    let catalog = Catalog::attach(index).unwrap();
    let mut writer = catalog.writer().unwrap();
    assert!(catalog.stage(&mut writer, &vec![]).is_ok());
    catalog.publish(&mut writer).unwrap();
    let engine = catalog.engine().unwrap();
    assert_eq!(replaced(engine.run_query("symbols").unwrap()).len(), 0);
}

#[test]
fn a_query_without_a_field_looks_in_name_and_block_only() {
    let engine = engine_on(ONE_LETTER);
    assert_eq!(replaced(engine.run_query("letter").unwrap()).len(), 1);
    assert_eq!(replaced(engine.run_query("basic").unwrap()).len(), 1);
    assert_eq!(replaced(engine.run_query("name:basic").unwrap()).len(), 0);
    assert_eq!(replaced(engine.run_query("blck:basic").unwrap()).len(), 1);
    assert_eq!(replaced(engine.run_query("65").unwrap()).len(), 0);
    assert_eq!(replaced(engine.run_query("41").unwrap()).len(), 0);
}

#[test]
fn populating_twice_doubles_the_records() {
    let catalog = catalog_of(ONE_LETTER);
    let again = load_corpus(ONE_LETTER.as_bytes()).unwrap();
    catalog.populate(&again).unwrap();
    let engine = catalog.engine().unwrap();
    assert_eq!(replaced(engine.run_query("capital").unwrap()).len(), 2);
}

#[test]
fn opening_an_engine_twice_leaves_the_record_count_as_it_is() {
    let catalog = catalog_of(&many_digits(7));
    let first = catalog.engine().unwrap();
    let second = catalog.engine().unwrap();
    assert_eq!(replaced(first.run_query("digit").unwrap()).len(), 7);
    assert_eq!(replaced(second.run_query("digit").unwrap()).len(), 7);
}

#[test]
fn the_schema_has_the_three_record_fields() {
    let schema = catalog_schema();
    let name = schema.get_field("name").unwrap();
    let block = schema.get_field("blck").unwrap();
    let code_point = schema.get_field("codepnt").unwrap();
    assert_eq!(schema.fields().count(), 3);
    assert!(schema.get_field_entry(name).is_indexed());
    assert!(schema.get_field_entry(name).is_stored());
    assert!(schema.get_field_entry(block).is_indexed());
    assert!(schema.get_field_entry(block).is_stored());
    assert!(!schema.get_field_entry(code_point).is_indexed());
    assert!(schema.get_field_entry(code_point).is_stored());
}

#[test]
fn an_index_without_the_record_fields_cannot_be_attached() {
    let mut builder = tantivy::schema::Schema::builder();
    builder.add_text_field("name", tantivy::schema::TEXT | tantivy::schema::STORED);
    builder.add_text_field("title", tantivy::schema::TEXT);
    let index = tantivy::Index::create_in_ram(builder.build());
    let error = match Catalog::attach(index) {
        Ok(_) => panic!("the index lacks two fields"),
        Err(error) => error,
    };
    assert_eq!(error.kind(), ErrorKind::IndexUnavailable);
    assert!(error.is_fatal());
}

#[test]
fn a_record_is_made_of_stored_fields_when_none_is_missing() {
    let whole = StoredFields {
        name: Some("SNOWMAN".to_string()),
        block: Some("Miscellaneous Symbols".to_string()),
        code_point: Some(0x2603),
    };
    assert_eq!(
        assemble(whole),
        Some(CharacterRecord::new(
            "SNOWMAN".to_string(),
            "Miscellaneous Symbols".to_string(),
            0x2603
        ))
    );
    let nameless = StoredFields { name: None, block: Some("B".to_string()), code_point: Some(1) };
    assert_eq!(assemble(nameless), None);
    let blockless = StoredFields { name: Some("N".to_string()), block: None, code_point: Some(1) };
    assert_eq!(assemble(blockless), None);
    let numberless =
        StoredFields { name: Some("N".to_string()), block: Some("B".to_string()), code_point: None };
    assert_eq!(assemble(numberless), None);
}

#[test]
fn typing_a_letter_and_deleting_it_leaves_an_empty_query_without_results() {
    let mut picker = Picker::new(engine_on(ONE_LETTER));
    let effect = picker.handle(InputEvent::Character('A')).unwrap();
    assert!(effect.requery);
    assert_eq!(picker.state().query_string(), "A");
    assert_eq!(picker.state().cursor(), 1);
    assert_eq!(picker.state().result_count(), 1);
    let effect = picker.handle(InputEvent::Backspace).unwrap();
    assert!(effect.requery);
    assert_eq!(picker.state().query_string(), "");
    assert_eq!(picker.state().cursor(), 0);
    assert_eq!(picker.state().results(), Some(&vec![]));
    assert_eq!(picker.state().selected_index(), 0);
    assert_eq!(picker.state().scroll_offset(), 0);
}

#[test]
fn a_query_that_stops_parsing_keeps_the_earlier_results() {
    let mut picker = Picker::new(engine_on(TWO_BLOCKS));
    for c in "snowman".chars() {
        picker.handle(InputEvent::Character(c)).unwrap();
    }
    let before = picker.state().results().cloned();
    assert_eq!(before.as_ref().map(|records| records.len()), Some(1));
    for c in " AND".chars() {
        picker.handle(InputEvent::Character(c)).unwrap();
    }
    assert_eq!(picker.state().query_string(), "snowman AND");
    assert_eq!(picker.state().results().cloned(), before);
    for c in " arrow".chars() {
        picker.handle(InputEvent::Character(c)).unwrap();
    }
    assert_eq!(picker.state().result_count(), 0);
}

#[test]
fn a_lone_operator_after_a_query_leaves_the_results_unchanged() {
    let engine = engine_on(TWO_BLOCKS);
    let mut state = ununi::state::QueryState::new();
    state.apply_outcome(engine.run_query("arrow").unwrap());
    let before = state.results().cloned();
    assert_eq!(before.as_ref().unwrap()[0].code_point, 0x2190);
    state.apply_outcome(engine.run_query("AND").unwrap());
    assert_eq!(state.results().cloned(), before);
    state.apply_outcome(engine.run_query("OR").unwrap());
    assert_eq!(state.results().cloned(), before);
}

#[test]
fn a_bracket_typed_into_a_cleared_query_leaves_the_results_unchanged() {
    let mut picker = Picker::new(engine_on(TWO_BLOCKS));
    for c in "arrow".chars() {
        picker.handle(InputEvent::Character(c)).unwrap();
    }
    let before = picker.state().results().cloned();
    assert_eq!(before.as_ref().unwrap().len(), 1);
    picker.handle(InputEvent::NavigateDown).unwrap();
    for _ in 0..5 {
        picker.handle(InputEvent::CursorLeft).unwrap();
    }
    let effect = picker.handle(InputEvent::DeleteForward).unwrap();
    assert!(!effect.requery);
    assert_eq!(picker.state().query_string(), "");
    assert_eq!(picker.state().results().cloned(), before);
    let effect = picker.handle(InputEvent::Character('(')).unwrap();
    assert!(effect.requery);
    assert_eq!(picker.state().query_string(), "(");
    assert_eq!(picker.state().results().cloned(), before);
}

#[test]
fn new_results_put_selection_and_window_back_to_the_top() {
    let mut picker = Picker::new(engine_on(&many_digits(30)));
    for c in "digit".chars() {
        picker.handle(InputEvent::Character(c)).unwrap();
    }
    assert_eq!(picker.state().result_count(), 30);
    for _ in 0..24 {
        picker.handle(InputEvent::NavigateDown).unwrap();
    }
    assert!(picker.state().selected_index() > 0);
    assert!(picker.state().scroll_offset() > 0);
    picker.handle(InputEvent::Character('s')).unwrap();
    assert_eq!(picker.state().selected_index(), 0);
    assert_eq!(picker.state().scroll_offset(), 0);
    assert_eq!(picker.state().result_count(), 0);
}

#[test]
fn the_hotkey_evaluates_the_query_again_and_shows_the_picker() {
    let mut picker = Picker::new(engine_on(ONE_LETTER));
    assert_eq!(picker.state().results(), None);
    let effect = picker.handle(ununi::keys::invoked(77)).unwrap();
    assert!(effect.requery);
    assert!(effect.show);
    assert!(!effect.hide);
    assert_eq!(picker.state().results(), Some(&vec![]));
    assert_eq!(picker.state().pending_target(), Some(ununi::state::TargetWindow(77)));
}

#[test]
fn requery_evaluates_the_text_as_it_stands() {
    let mut picker = Picker::new(engine_on(ONE_LETTER));
    picker.requery().unwrap();
    assert_eq!(picker.state().results(), Some(&vec![]));
    assert_eq!(replaced(picker.engine().run_query("letter").unwrap()).len(), 1);
}
