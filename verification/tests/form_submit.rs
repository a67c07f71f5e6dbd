use anki_card_adjuster::form::{cards_to_edit, submit_form, FormDecision};

fn values(pairs: &[(&str, &str)]) -> Vec<(String, Vec<String>)> {
    pairs.iter().map(|(k, v)| (k.to_string(), vec![v.to_string()])).collect()
}

fn fields(names: &[&str]) -> Vec<String> {
    names.iter().map(|s| s.to_string()).collect()
}

#[test]
fn empty_field_is_refused() {
    let v = values(&[("replace_with", "x"), ("field", ""), ("cards_with", "y")]);
    match submit_form(&v, &fields(&["Front"])) {
        FormDecision::Refuse(m) => assert_eq!(m, "Please enter a field name"),
        _ => panic!("expected a refusal"),
    }
}

#[test]
fn form_is_read_with_checkboxes() {
    let v = values(&[
        ("replace_with", "new"),
        ("field", "Back"),
        ("cards_with", "old"),
        ("line_breaks", "lineBreaks"),
        ("remove_whole", "removeWhole"),
    ]);
    match submit_form(&v, &fields(&["Front", "Back"])) {
        FormDecision::Search { form, warning } => {
            assert_eq!(form.replace_with, "new");
            assert_eq!(form.field, "Back");
            assert_eq!(form.cards_with, "old");
            assert!(form.line_breaks);
            assert!(!form.as_space);
            assert!(!form.findreplace);
            assert!(warning.is_none());
        }
        _ => panic!("expected a search"),
    }
}

#[test]
fn all_cards_selects_every_card() {
    let v = values(&[("replace_with", ""), ("field", "Back"), ("cards_with", "old"), ("all_cards", "allCards"), ("as_space", "asSpace")]);
    match submit_form(&v, &fields(&["Back"])) {
        FormDecision::Search { form, .. } => {
            assert_eq!(form.cards_with, "*");
            assert!(form.as_space);
            assert!(form.findreplace);
        }
        _ => panic!("expected a search"),
    }
}

#[test]
fn unknown_field_gives_a_warning_only() {
    let v = values(&[("replace_with", ""), ("field", "Reading"), ("cards_with", "")]);
    match submit_form(&v, &fields(&["Front", "Back"])) {
        FormDecision::Search { form, warning } => {
            assert_eq!(form.field, "Reading");
            assert_eq!(warning, Some("Please enter a valid field name".to_string()));
        }
        _ => panic!("expected a search"),
    }
}

#[test]
fn no_cards_found_is_refused() {
    assert_eq!(cards_to_edit(vec![]), Err("No cards found!".to_string()));
    assert_eq!(cards_to_edit(vec![3, 4]), Ok(vec![3, 4]));
}
