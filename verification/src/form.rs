//! The edit form: what a submitted form asks for, and whether it may go
//! ahead.

use vstd::prelude::*;
use vstd::string::*;
use crate::keyed::{get, lookup};
use crate::notes::strings_view;

verus! {

/// What a submitted form asks for.
pub struct EditForm {
    /// The replacement text.
    pub replace_with: String,
    /// The field to edit.
    pub field: String,
    /// The text that selects the cards (and that a find and replace looks
    /// for); `*` when all cards are asked for.
    pub cards_with: String,
    /// Whether line breaks are removed.
    pub line_breaks: bool,
    /// Whether a removed line break becomes a space.
    pub as_space: bool,
    /// Whether the edit is a find and replace (rather than a replacement of
    /// the whole field).
    pub findreplace: bool,
}

/// Whether a submitted form may go ahead.
pub enum FormDecision {
    /// The form is refused, with the message to show.
    Refuse(String),
    /// The cards are searched for, and then edited; a warning may be shown
    /// meanwhile.
    Search { form: EditForm, warning: Option<String> },
}

/// The first value submitted under `key`.
pub open spec fn first_value(values: Seq<(String, Vec<String>)>, key: Seq<char>) -> Option<Seq<char>> {
    match lookup(values, key) {
        Some(v) => if v@.len() > 0 {
            Some(v@[0]@)
        } else {
            None
        },
        None => None,
    }
}

/// A checkbox is ticked when the form submits a value under its name.
pub open spec fn ticked(values: Seq<(String, Vec<String>)>, key: Seq<char>) -> bool {
    lookup(values, key) is Some
}

/// The form submits a value for each of its text inputs.
pub open spec fn form_complete(values: Seq<(String, Vec<String>)>) -> bool {
    &&& first_value(values, "replace_with"@) is Some
    &&& first_value(values, "field"@) is Some
    &&& first_value(values, "cards_with"@) is Some
}

/// The form a complete submission describes.
pub open spec fn spec_read_form(values: Seq<(String, Vec<String>)>) -> (Seq<char>, Seq<char>, Seq<char>, bool, bool, bool) {
    (
        first_value(values, "replace_with"@)->0,
        first_value(values, "field"@)->0,
        if ticked(values, "all_cards"@) {
            "*"@
        } else {
            first_value(values, "cards_with"@)->0
        },
        ticked(values, "line_breaks"@),
        ticked(values, "as_space"@),
        !ticked(values, "remove_whole"@),
    )
}

impl EditForm {
    /// The form's contents, in the order of `spec_read_form`.
    pub open spec fn contents(&self) -> (Seq<char>, Seq<char>, Seq<char>, bool, bool, bool) {
        (self.replace_with@, self.field@, self.cards_with@, self.line_breaks, self.as_space, self.findreplace)
    }
}

fn first_value_of(values: &Vec<(String, Vec<String>)>, key: &str) -> (r: String)
    requires
        first_value(values@, key@) is Some,
    ensures
        r@ == first_value(values@, key@)->0,
{
    let v = get(values, key).unwrap();
    v[0].clone()
}

fn is_ticked(values: &Vec<(String, Vec<String>)>, key: &str) -> (b: bool)
    ensures
        b == ticked(values@, key@),
{
    get(values, key).is_some()
}

fn contains_string(v: &Vec<String>, s: &String) -> (b: bool)
    ensures
        b == strings_view(v@).contains(s@),
{
    let mut i: usize = 0;
    while i < v.len()
        invariant
            i <= v.len(),
            forall|j: int| 0 <= j < i ==> v@[j]@ != s@,
        decreases v.len() - i,
    {
        if v[i] == *s {
            assert(strings_view(v@)[i as int] == s@);
            return true;
        }
        i = i + 1;
    }
    assert forall|j: int| 0 <= j < strings_view(v@).len() implies strings_view(v@)[j] != s@ by {
        assert(strings_view(v@)[j] == v@[j]@);
    }
    false
}

/// Decides on a submitted form: an empty field name is refused; otherwise the cards are searched
/// for, with a warning when the field is not one of the chosen model's.
pub fn submit_form(values: &Vec<(String, Vec<String>)>, model_fields: &Vec<String>) -> (r: FormDecision)
    requires
        form_complete(values@),
    ensures
        first_value(values@, "field"@)->0.len() == 0 ==> r is Refuse && r->Refuse_0@ == "Please enter a field name"@,
        first_value(values@, "field"@)->0.len() > 0 ==> {
            &&& r is Search
            &&& r->form.contents() == spec_read_form(values@)
            &&& strings_view(model_fields@).contains(first_value(values@, "field"@)->0) ==> r->warning is None
            &&& !strings_view(model_fields@).contains(first_value(values@, "field"@)->0) ==> {
                &&& r->warning is Some
                &&& r->warning->0@ == "Please enter a valid field name"@
            }
        },
{
    let replace_with = first_value_of(values, "replace_with");
    let field = first_value_of(values, "field");
    let mut cards_with = first_value_of(values, "cards_with");
    let line_breaks = is_ticked(values, "line_breaks");
    let as_space = is_ticked(values, "as_space");
    let findreplace = !is_ticked(values, "remove_whole");
    if is_ticked(values, "all_cards") {
        cards_with = String::from_str("*");
    }
    if field.as_str().is_empty() {
        return FormDecision::Refuse(String::from_str("Please enter a field name"));
    }
    let warning = if contains_string(model_fields, &field) {
        None
    } else {
        Some(String::from_str("Please enter a valid field name"))
    };
    FormDecision::Search {
        form: EditForm { replace_with, field, cards_with, line_breaks, as_space, findreplace },
        warning,
    }
}

/// The cards a search found, to be edited; none found is refused with the
/// message `No cards found!`.
pub fn cards_to_edit(cards: Vec<i64>) -> (r: Result<Vec<i64>, String>)
    ensures
        cards@.len() > 0 ==> r == Ok::<Vec<i64>, String>(cards),
        cards@.len() == 0 ==> r is Err && r->Err_0@ == "No cards found!"@,
{
    if cards.is_empty() {
        Err(String::from_str("No cards found!"))
    } else {
        Ok(cards)
    }
}

/// What a complete submission asks for, input by input: the replacement
/// and the field are the first values submitted under `replace_with` and
/// `field`; the text that selects cards is `*` when `all_cards` is
/// submitted and otherwise the first value under `cards_with`; line breaks
/// are removed exactly when `line_breaks` is submitted, as spaces exactly
/// when `as_space` is; and the edit is a find and replace exactly when
/// `remove_whole` is not submitted.
pub proof fn lemma_form_reads_inputs(values: Seq<(String, Vec<String>)>)
    requires
        form_complete(values),
    ensures
        first_value(values, "field"@) == Some(lookup(values, "field"@)->0@[0]@),
        spec_read_form(values).0 == lookup(values, "replace_with"@)->0@[0]@,
        spec_read_form(values).1 == lookup(values, "field"@)->0@[0]@,
        lookup(values, "all_cards"@) is Some ==> spec_read_form(values).2 == seq!['*'],
        lookup(values, "all_cards"@) is None ==> spec_read_form(values).2 == lookup(values, "cards_with"@)->0@[0]@,
        spec_read_form(values).3 == (lookup(values, "line_breaks"@) is Some),
        spec_read_form(values).4 == (lookup(values, "as_space"@) is Some),
        spec_read_form(values).5 == (lookup(values, "remove_whole"@) is None),
{
    reveal_strlit("*");
    assert("*"@ =~= seq!['*']);
}

} // verus!
