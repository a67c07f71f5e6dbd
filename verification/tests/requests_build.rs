use anki_card_adjuster::requests::{
    check_for_cards_outcome, check_for_cards_request, deck_names_request, find_notes_query,
    find_notes_query_containing, find_notes_request, model_field_names_request, model_field_names_requests,
    model_names_request, notes_info_request, notes_info_requests, update_note_fields_request, API_VERSION,
};

#[test]
fn find_notes_query_three_searches() {
    assert_eq!(find_notes_query("TheMoeWay Tango N5", None, "*"), "deck:\"TheMoeWay Tango N5\"");
    assert_eq!(find_notes_query("Deck", Some("Reading"), ""), "deck:\"Deck\" Reading:");
    assert_eq!(find_notes_query("Deck", Some("Reading"), "よみ"), "deck:\"Deck\" Reading:よみ");
}

#[test]
fn find_notes_query_containing_wraps_text() {
    assert_eq!(find_notes_query_containing("Deck", Some("Reading"), "よみ"), "deck:\"Deck\" Reading:*よみ*");
    assert_eq!(find_notes_query_containing("Deck", Some("Reading"), ""), "deck:\"Deck\" Reading:");
    assert_eq!(find_notes_query_containing("Deck", None, "x"), "deck:\"Deck\"");
}

#[test]
fn find_notes_queries_agree_on_empty_text() {
    for field in [None, Some("Front")] {
        assert_eq!(find_notes_query("D", field, ""), find_notes_query_containing("D", field, ""));
    }
}

#[test]
fn simple_requests() {
    let r = deck_names_request();
    assert_eq!(r.action, "deckNames");
    assert_eq!(r.version, 6);
    assert!(r.params.is_none());
    let r = model_names_request();
    assert_eq!(r.action, "modelNames");
    assert!(r.params.is_none());
    assert_eq!(API_VERSION, 6);
}

#[test]
fn model_field_names_request_names_the_model() {
    let r = model_field_names_request(&"Basic".to_string());
    assert_eq!(r.action, "modelFieldNames");
    let p = r.params.unwrap();
    assert_eq!(p.model_name, Some("Basic".to_string()));
    assert!(p.cards.is_none() && p.query.is_none() && p.note.is_none() && p.notes.is_none());
}

#[test]
fn notes_info_request_asks_for_one_note() {
    let r = notes_info_request(1703791651837);
    assert_eq!(r.action, "notesInfo");
    assert_eq!(r.version, 6);
    assert_eq!(r.params.unwrap().notes, Some(vec![1703791651837]));
}

#[test]
fn update_request_sets_one_field() {
    let r = update_note_fields_request(42, "Back", "new".to_string());
    assert_eq!(r.action, "updateNoteFields");
    let note = r.params.unwrap().note.unwrap();
    assert_eq!(note.id, 42);
    assert_eq!(note.fields, vec![("Back".to_string(), "new".to_string())]);
}

#[test]
fn find_notes_request_carries_query() {
    let r = find_notes_request("deck:\"A\"".to_string());
    assert_eq!(r.action, "findNotes");
    let p = r.params.unwrap();
    assert_eq!(p.query, Some("deck:\"A\"".to_string()));
    assert!(p.cards.is_none());
}

#[test]
fn check_for_cards_searches_the_field() {
    let r = check_for_cards_request("Deck", None, "Reading");
    assert_eq!(r.params.unwrap().query, Some("deck:\"Deck\" Reading:".to_string()));
    let r = check_for_cards_request("Deck", Some("x".to_string()), "Reading");
    assert_eq!(r.params.unwrap().query, Some("deck:\"Deck\" Reading:x".to_string()));
}

#[test]
fn check_for_cards_outcome_messages() {
    assert_eq!(check_for_cards_outcome(Some(vec![1, 2])), Ok(vec![1, 2]));
    assert_eq!(check_for_cards_outcome(None), Err("No cards found!".to_string()));
}

#[test]
fn notes_info_requests_one_per_note() {
    let r = notes_info_requests(&vec![1703791651837, 1455649815706]);
    assert_eq!(r.len(), 2);
    assert_eq!(r[0].action, "notesInfo");
    assert_eq!(r[0].params.as_ref().unwrap().notes, Some(vec![1703791651837]));
    assert_eq!(r[1].params.as_ref().unwrap().notes, Some(vec![1455649815706]));
    assert!(notes_info_requests(&vec![]).is_empty());
}

#[test]
fn model_field_names_requests_one_per_model() {
    let r = model_field_names_requests(&vec!["Basic".to_string(), "Cloze".to_string()]);
    assert_eq!(r.len(), 2);
    assert_eq!(r[1].action, "modelFieldNames");
    assert_eq!(r[1].params.as_ref().unwrap().model_name, Some("Cloze".to_string()));
}
