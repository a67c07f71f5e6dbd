use anki_card_adjuster::edits::{edit_cards, find_and_replace, replace_whole_fields};
use anki_card_adjuster::json::{get, JsonValue};
use anki_card_adjuster::notes::{
    find_models, is_note_json, is_notes_json, models_with_fields, note_info_from_json, notes_from_json, notes_from_replies,
    unique_model_names, Model, NoteInfo,
};
use anki_card_adjuster::requests::{ReqType, Request};
use anki_card_adjuster::responses::{
    CardsResponse, DecksResponse, ModelFieldsResponse, ModelsResponse, NoteInfoResponse, PostResult, Reply, ReplyKind,
};

fn s(x: &str) -> JsonValue {
    JsonValue::Str(x.to_string())
}

fn num(n: i64) -> JsonValue {
    JsonValue::Number(Some(n), n.to_string())
}

fn obj(members: Vec<(&str, JsonValue)>) -> JsonValue {
    JsonValue::Object(members.into_iter().map(|(k, v)| (k.to_string(), v)).collect())
}

fn note_json(id: i64, model: &str, fields: Vec<(&str, &str)>) -> Vec<(String, JsonValue)> {
    let fields = obj(fields
        .into_iter()
        .enumerate()
        .map(|(i, (k, v))| (k, obj(vec![("value", s(v)), ("order", num(i as i64))])))
        .collect());
    vec![
        ("cards".to_string(), JsonValue::Array(vec![num(id)])),
        ("fields".to_string(), fields),
        ("modelName".to_string(), s(model)),
        ("noteId".to_string(), num(id + 1)),
        ("tags".to_string(), JsonValue::Array(vec![s("n5"), s("vocab")])),
    ]
}

fn note(id: i64, model: &str, fields: Vec<(&str, &str)>) -> NoteInfo {
    note_info_from_json(&note_json(id, model, fields))
}

fn update_of(r: &Request) -> (i64, String, String) {
    assert_eq!(r.action, "updateNoteFields");
    assert_eq!(r.version, 6);
    let note = r.params.as_ref().unwrap().note.as_ref().unwrap();
    assert_eq!(note.fields.len(), 1);
    (note.id, note.fields[0].0.clone(), note.fields[0].1.clone())
}

#[test]
fn json_get_finds_first_member() {
    let m = vec![("a".to_string(), num(1)), ("b".to_string(), num(2)), ("a".to_string(), num(3))];
    match get(&m, "a") {
        Some(JsonValue::Number(Some(n), _)) => assert_eq!(*n, 1),
        _ => panic!("member a"),
    }
    assert!(get(&m, "c").is_none());
}

#[test]
fn note_from_reply_object() {
    let n = note(1498938915662, "Basic", vec![("Front", "猫"), ("Back", "cat<br>feline")]);
    assert_eq!(n.model(), "Basic");
    assert_eq!(n.fields(), &vec![("Front".to_string(), "猫".to_string()), ("Back".to_string(), "cat<br>feline".to_string())]);
    assert_eq!(n.field("Back"), Some(&"cat<br>feline".to_string()));
    assert_eq!(n.field("Reading"), None);
}

#[test]
fn note_id_is_last_card() {
    let mut m = note_json(1, "Basic", vec![("Front", "x")]);
    m[0].1 = JsonValue::Array(vec![num(10), num(20)]);
    assert!(is_note_json(&m));
    let n = note_info_from_json(&m);
    assert_eq!(n.model(), "Basic");
    let mut bad = note_json(1, "Basic", vec![("Front", "x")]);
    bad[0].1 = JsonValue::Array(vec![]);
    assert!(!is_note_json(&bad));
}

#[test]
fn malformed_note_objects_are_refused() {
    let mut no_model = note_json(1, "Basic", vec![("Front", "x")]);
    no_model.remove(2);
    assert!(!is_note_json(&no_model));
    let mut bad_tag = note_json(1, "Basic", vec![("Front", "x")]);
    bad_tag[4].1 = JsonValue::Array(vec![s("ok"), num(3)]);
    assert!(!is_note_json(&bad_tag));
    let mut bad_field = note_json(1, "Basic", vec![("Front", "x")]);
    bad_field[1].1 = obj(vec![("Front", obj(vec![("order", num(0))]))]);
    assert!(!is_note_json(&bad_field));
    let mut twice = note_json(1, "Basic", vec![("Front", "x")]);
    twice[1].1 = obj(vec![("Front", obj(vec![("value", s("a"))])), ("Front", obj(vec![("value", s("b"))]))]);
    assert!(!is_note_json(&twice));
    let mut float_id = note_json(1, "Basic", vec![("Front", "x")]);
    float_id[0].1 = JsonValue::Array(vec![JsonValue::Number(None, "1.5".to_string())]);
    assert!(!is_note_json(&float_id));
}

#[test]
fn notes_from_reply_keep_order() {
    let maps = vec![note_json(1, "A", vec![("F", "1")]), note_json(2, "B", vec![("F", "2")])];
    assert!(is_notes_json(&maps));
    let notes = notes_from_json(&maps);
    assert_eq!(notes.len(), 2);
    assert_eq!(notes[0].model(), "A");
    assert_eq!(notes[1].field("F"), Some(&"2".to_string()));
    let mut bad = maps;
    bad.push(vec![]);
    assert!(!is_notes_json(&bad));
}

#[test]
fn notes_of_several_replies_are_joined_in_order() {
    let replies = vec![
        vec![note_json(1, "A", vec![("F", "1")])],
        vec![],
        vec![note_json(2, "B", vec![("F", "2")]), note_json(3, "C", vec![("F", "3")])],
    ];
    let notes = notes_from_replies(&replies);
    let models: Vec<&str> = notes.iter().map(|n| n.model()).collect();
    assert_eq!(models, vec!["A", "B", "C"]);
    assert!(notes_from_replies(&vec![]).is_empty());
}

#[test]
fn unique_model_names_keep_first_occurrences() {
    let notes = vec![
        note(1, "Mining", vec![("F", "")]),
        note(2, "Basic", vec![("F", "")]),
        note(3, "Mining", vec![("F", "")]),
        note(4, "Cloze", vec![("F", "")]),
        note(5, "Basic", vec![("F", "")]),
    ];
    assert_eq!(unique_model_names(&notes), vec!["Mining".to_string(), "Basic".to_string(), "Cloze".to_string()]);
    assert_eq!(unique_model_names(&vec![]), Vec::<String>::new());
}

#[test]
fn models_pair_names_and_fields() {
    let models = models_with_fields(
        vec!["Basic".to_string(), "Cloze".to_string()],
        vec![vec!["Front".to_string(), "Back".to_string()], vec!["Text".to_string()]],
    );
    assert_eq!(models.len(), 2);
    assert_eq!(models[1].name, "Cloze");
    assert_eq!(models[0].fields, vec!["Front".to_string(), "Back".to_string()]);
    let pairs = find_models(models);
    assert_eq!(pairs[0], ("Basic".to_string(), vec!["Front".to_string(), "Back".to_string()]));
    assert_eq!(pairs[1], ("Cloze".to_string(), vec!["Text".to_string()]));
    let m = Model::from("X".to_string(), vec![]);
    assert_eq!(m.name, "X");
}

#[test]
fn reply_kinds() {
    assert!(matches!(ReqType::Cards.reply_kind(), ReplyKind::Cards));
    assert!(matches!(ReqType::Decks.reply_kind(), ReplyKind::Decks));
    assert!(matches!(ReqType::ModelFields.reply_kind(), ReplyKind::ModelFields));
    assert!(matches!(ReqType::Models.reply_kind(), ReplyKind::Models));
    assert!(matches!(ReqType::NoteInfo.reply_kind(), ReplyKind::NotesInfo));
    assert!(matches!(ReqType::Nothing.reply_kind(), ReplyKind::Unread));
    assert!(matches!(ReqType::Deck.reply_kind(), ReplyKind::Unread));
    assert!(matches!(ReqType::Card.reply_kind(), ReplyKind::Unread));
}

#[test]
fn replies_decode_to_their_results() {
    let r = PostResult::from_reply(Reply::Cards(CardsResponse { result: Some(vec![3, 1]), error: None }));
    assert_eq!(r.to_cards(), vec![3, 1]);
    let r = PostResult::from_reply(Reply::Decks(DecksResponse { result: Some(vec!["Default".to_string()]), error: None }));
    assert_eq!(r.to_decks(), vec!["Default".to_string()]);
    let r = PostResult::from_reply(Reply::Models(ModelsResponse { result: Some(vec!["Basic".to_string()]), error: None }));
    assert_eq!(r.to_model_names(), vec!["Basic".to_string()]);
    let r = PostResult::from_reply(Reply::ModelFields(ModelFieldsResponse { result: Some(vec!["Front".to_string()]), error: None }));
    assert_eq!(r.to_model_fields(), vec!["Front".to_string()]);
    let r = PostResult::from_reply(Reply::NotesInfo(NoteInfoResponse { result: vec![note_json(7, "Basic", vec![])], error: None }));
    assert_eq!(r.to_notes_info().len(), 1);
    assert!(matches!(PostResult::from_reply(Reply::Unread), PostResult::Nothing));
}

#[test]
fn lenient_decoding_of_a_failed_search() {
    let r = PostResult::from_reply_lenient(Reply::Cards(CardsResponse { result: None, error: Some("bad".to_string()) }));
    assert_eq!(r.to_cards(), Vec::<i64>::new());
    let r = PostResult::from_reply_lenient(Reply::Cards(CardsResponse { result: Some(vec![5]), error: None }));
    assert_eq!(r.to_cards(), vec![5]);
}

#[test]
fn whole_field_updates_one_per_card() {
    let r = replace_whole_fields(&vec![11, 12], "Back", "blank", true, None);
    assert_eq!(r.len(), 2);
    assert_eq!(update_of(&r[0]), (11, "Back".to_string(), "blank".to_string()));
    assert_eq!(update_of(&r[1]), (12, "Back".to_string(), "blank".to_string()));
}

#[test]
fn find_and_replace_edits_each_card() {
    let notes = vec![
        note(1, "Basic", vec![("Front", "a"), ("Back", "cat<br>hat")]),
        note(2, "Basic", vec![("Front", "b"), ("Back", "bat")]),
    ];
    let r = find_and_replace("at", "og", "Back", &vec![101, 102], &notes, true, Some(true));
    assert_eq!(update_of(&r[0]), (101, "Back".to_string(), "cog hog".to_string()));
    assert_eq!(update_of(&r[1]), (102, "Back".to_string(), "bog".to_string()));
    let r = find_and_replace("at", "og", "Back", &vec![101], &notes, false, None);
    assert_eq!(r.len(), 1);
    assert_eq!(update_of(&r[0]), (101, "Back".to_string(), "cog<br>hog".to_string()));
}

#[test]
fn find_and_replace_of_nothing_keeps_fields() {
    let notes = vec![note(1, "Mining", vec![("Reading", "よみ<br>")])];
    let r = find_and_replace("", "", "Reading", &vec![1], &notes, false, Some(false));
    assert_eq!(update_of(&r[0]), (1, "Reading".to_string(), "よみ<br>".to_string()));
}

#[test]
fn edit_cards_chooses_the_edit() {
    let notes = vec![note(1, "Basic", vec![("Back", "x-y")])];
    let r = edit_cards(&vec![9], "Back", "+", true, "-", false, None, &notes);
    assert_eq!(update_of(&r[0]), (9, "Back".to_string(), "x+y".to_string()));
    let r = edit_cards(&vec![9], "Back", "+", false, "-", false, None, &vec![]);
    assert_eq!(update_of(&r[0]), (9, "Back".to_string(), "+".to_string()));
}
