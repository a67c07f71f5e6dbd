//! The edits made to the cards of a deck: setting a field to a new value,
//! or finding and replacing text in it, with optional removal of line
//! breaks; each becomes one field update per card.

use vstd::prelude::*;
use vstd::string::*;
use crate::text::{replace, replace_all, occurs_at, lemma_replace_absent, lemma_replace_by_itself};
use crate::requests::{Request, RequestView, requests_view, spec_update_note_fields_request, update_note_fields_request};
use crate::notes::{NoteInfo, field_lookup};

verus! {

/// The HTML line break that Anki stores for a new line in a field.
pub open spec fn line_break() -> Seq<char> {
    seq!['<', 'b', 'r', '>']
}

/// What a line break becomes: a space, or nothing.
pub open spec fn line_break_replacement(as_space: bool) -> Seq<char> {
    if as_space {
        seq![' ']
    } else {
        Seq::empty()
    }
}

/// Replaces every HTML line break (`<br>`) in `text` by a space when
/// `as_space` holds, and removes it otherwise.
pub fn remove_newlines(text: &str, as_space: bool) -> (r: String)
    ensures
        r@ == replace_all(text@, line_break(), line_break_replacement(as_space)),
{
    proof {
        reveal_strlit("<br>");
        reveal_strlit(" ");
        reveal_strlit("");
    }
    if as_space {
        let r = replace(text, "<br>", " ");
        assert(" "@ =~= line_break_replacement(as_space));
        assert("<br>"@ =~= line_break());
        r
    } else {
        let r = replace(text, "<br>", "");
        assert(""@ =~= line_break_replacement(as_space));
        assert("<br>"@ =~= line_break());
        r
    }
}

/// A field without line breaks passes through `remove_newlines` unchanged.
pub proof fn lemma_remove_newlines_without_breaks(s: Seq<char>, as_space: bool)
    requires
        forall|i: int| !occurs_at(s, line_break(), i),
    ensures
        replace_all(s, line_break(), line_break_replacement(as_space)) == s,
{
    lemma_replace_absent(s, line_break(), line_break_replacement(as_space));
}

/// Replacing line breaks by spaces keeps every character other than a
/// space in place: a result that starts with such a character comes from a
/// text that starts with it and is no line break.
proof fn lemma_space_replacement_head(t: Seq<char>)
    requires
        replace_all(t, line_break(), seq![' ']).len() > 0,
        replace_all(t, line_break(), seq![' '])[0] != ' ',
    ensures
        t.len() > 0,
        t[0] == replace_all(t, line_break(), seq![' '])[0],
        replace_all(t, line_break(), seq![' ']) == seq![t[0]] + replace_all(t.skip(1), line_break(), seq![' ']),
{
    let r = replace_all(t, line_break(), seq![' ']);
    if t.len() > 0 && line_break().len() <= t.len() && t.take(4) == line_break() {
        assert(r[0] == ' ');
    }
}

/// Once line breaks are replaced by spaces, no line break is left: a new
/// one cannot form across a replaced break, since a space is no part of
/// `<br>`.
pub proof fn lemma_breaks_as_spaces_leave_no_break(s: Seq<char>)
    ensures
        forall|i: int| !occurs_at(replace_all(s, line_break(), seq![' ']), line_break(), i),
    decreases s.len(),
{
    let lb = line_break();
    let r = replace_all(s, lb, seq![' ']);
    if s.len() == 0 {
        return;
    }
    let starts = lb.len() <= s.len() && s.take(4) == lb;
    let k: int = if starts { 4 } else { 1 };
    let rest = s.skip(k);
    lemma_breaks_as_spaces_leave_no_break(rest);
    let rr = replace_all(rest, lb, seq![' ']);
    assert(r == (if starts { seq![' '] } else { seq![s[0]] }) + rr);
    assert forall|i: int| !occurs_at(r, lb, i) by {
        if occurs_at(r, lb, i) {
            if i > 0 {
                assert(r.subrange(i, i + 4) =~= rr.subrange(i - 1, i + 3));
                assert(occurs_at(rr, lb, i - 1));
            } else {
                assert(r.subrange(0, 4)[0] == '<');
                assert(r[0] == '<');
                assert(!starts);
                assert(r.subrange(0, 4)[1] == 'b');
                assert(rr[0] == 'b');
                lemma_space_replacement_head(rest);
                let s2 = rest.skip(1);
                let r2 = replace_all(s2, lb, seq![' ']);
                assert(r.subrange(0, 4)[2] == 'r');
                assert(r2[0] == 'r');
                lemma_space_replacement_head(s2);
                let s3 = s2.skip(1);
                let r3 = replace_all(s3, lb, seq![' ']);
                assert(r.subrange(0, 4)[3] == '>');
                assert(r3[0] == '>');
                lemma_space_replacement_head(s3);
                assert(s.take(4) =~= lb);
            }
        }
    }
}

/// A field value after an edit: every `find` replaced by `replace_with`,
/// then, when `del_newline` holds, every line break replaced as `as_space`
/// says.
pub open spec fn edited_value(value: Seq<char>, find: Seq<char>, replace_with: Seq<char>, del_newline: bool, as_space: bool) -> Seq<char> {
    let replaced = replace_all(value, find, replace_with);
    if del_newline {
        replace_all(replaced, line_break(), line_break_replacement(as_space))
    } else {
        replaced
    }
}

/// One update per card, each setting field `field` to `value`.
pub open spec fn whole_field_updates(cards: Seq<i64>, field: Seq<char>, value: Seq<char>) -> Seq<RequestView> {
    Seq::new(cards.len(), |i: int| spec_update_note_fields_request(cards[i], field, value))
}

/// The notes have field `field`, and line breaks are only removed with a
/// choice of their replacement: what a find and replace needs of them.
pub open spec fn find_and_replace_ready(notes: Seq<NoteInfo>, cards: Seq<i64>, field: Seq<char>, del_newline: bool, as_space: Option<bool>) -> bool {
    &&& forall|i: int| 0 <= i < notes.len() ==> (#[trigger] field_lookup(notes[i]@.fields, field)) is Some
    &&& (del_newline && notes.len() > 0 ==> as_space is Some)
    &&& cards.len() <= notes.len()
}

/// One update per card: the card at index `i` gets field `field` of the
/// note at index `i`, edited.
pub open spec fn find_and_replace_updates(
    notes: Seq<NoteInfo>,
    cards: Seq<i64>,
    field: Seq<char>,
    find: Seq<char>,
    replace_with: Seq<char>,
    del_newline: bool,
    as_space: Option<bool>,
) -> Seq<RequestView> {
    Seq::new(
        cards.len(),
        |i: int|
            spec_update_note_fields_request(
                cards[i],
                field,
                edited_value(
                    field_lookup(notes[i]@.fields, field)->0,
                    find,
                    replace_with,
                    del_newline,
                    as_space == Some(true),
                ),
            ),
    )
}

/// The updates that set field `field` of every card to `replace`
/// (`replace_whole_fields`); line breaks are not touched, whatever
/// `del_newline` and `as_space` say.
pub fn replace_whole_fields(cards: &Vec<i64>, field: &str, replace: &str, del_newline: bool, as_space: Option<bool>) -> (r: Vec<Request>)
    ensures
        requests_view(r@) == whole_field_updates(cards@, field@, replace@),
{
    let mut out: Vec<Request> = Vec::new();
    let mut i: usize = 0;
    while i < cards.len()
        invariant
            i <= cards.len(),
            out@.len() == i,
            forall|j: int| 0 <= j < i ==> (#[trigger] out@[j])@ == spec_update_note_fields_request(cards@[j], field@, replace@),
        decreases cards.len() - i,
    {
        out.push(update_note_fields_request(cards[i], field, String::from_str(replace)));
        i = i + 1;
    }
    assert(requests_view(out@) =~= whole_field_updates(cards@, field@, replace@));
    out
}

/// The edited value of one field (the value computed per note in
/// `find_and_replace`).
pub fn edit_value(value: &str, find: &str, replace_with: &str, del_newline: bool, as_space: bool) -> (r: String)
    ensures
        r@ == edited_value(value@, find@, replace_with@, del_newline, as_space),
{
    let replaced = replace(value, find, replace_with);
    if del_newline {
        remove_newlines(replaced.as_str(), as_space)
    } else {
        replaced
    }
}

/// The updates of a find and replace (`find_and_replace`): the card at
/// index `i` gets field `in_field` of the note at index `i`, with every
/// `find` replaced by `replace_with` and, when `del_newline` holds, line
/// breaks replaced as `as_space` says.
pub fn find_and_replace(
    find: &str,
    replace_with: &str,
    in_field: &str,
    cards: &Vec<i64>,
    notes: &Vec<NoteInfo>,
    del_newline: bool,
    as_space: Option<bool>,
) -> (r: Vec<Request>)
    requires
        find_and_replace_ready(notes@, cards@, in_field@, del_newline, as_space),
    ensures
        requests_view(r@) == find_and_replace_updates(notes@, cards@, in_field@, find@, replace_with@, del_newline, as_space),
{
    let mut values: Vec<String> = Vec::new();
    let mut i: usize = 0;
    while i < notes.len()
        invariant
            i <= notes.len(),
            values@.len() == i,
            find_and_replace_ready(notes@, cards@, in_field@, del_newline, as_space),
            forall|j: int| 0 <= j < i ==> (#[trigger] values@[j])@ == edited_value(
                field_lookup(notes@[j]@.fields, in_field@)->0, find@, replace_with@, del_newline, as_space == Some(true)),
        decreases notes.len() - i,
    {
        assert(field_lookup(notes@[i as int]@.fields, in_field@) is Some);
        let field = notes[i].field(in_field).unwrap();
        let space = if del_newline { as_space.unwrap() } else { false };
        values.push(edit_value(field.as_str(), find, replace_with, del_newline, space));
        i = i + 1;
    }
    let mut out: Vec<Request> = Vec::new();
    let mut k: usize = 0;
    while k < cards.len()
        invariant
            k <= cards.len(),
            cards@.len() <= values@.len(),
            out@.len() == k,
            forall|j: int| 0 <= j < values@.len() ==> (#[trigger] values@[j])@ == edited_value(
                field_lookup(notes@[j]@.fields, in_field@)->0, find@, replace_with@, del_newline, as_space == Some(true)),
            forall|j: int| 0 <= j < k ==> (#[trigger] out@[j])@ == spec_update_note_fields_request(cards@[j], in_field@,
                edited_value(field_lookup(notes@[j]@.fields, in_field@)->0, find@, replace_with@, del_newline, as_space == Some(true))),
        decreases cards.len() - k,
    {
        out.push(update_note_fields_request(cards[k], in_field, values[k].clone()));
        k = k + 1;
    }
    assert(requests_view(out@) =~= find_and_replace_updates(notes@, cards@, in_field@, find@, replace_with@, del_newline, as_space));
    out
}

/// The updates of an edit (`edit_cards`): a find and replace when
/// `findreplace` holds, and otherwise the whole field set to
/// `replace_with`.
pub fn edit_cards(
    cards: &Vec<i64>,
    in_field: &str,
    replace_with: &str,
    findreplace: bool,
    find: &str,
    del_newline: bool,
    as_space: Option<bool>,
    notes: &Vec<NoteInfo>,
) -> (r: Vec<Request>)
    requires
        findreplace ==> find_and_replace_ready(notes@, cards@, in_field@, del_newline, as_space),
    ensures
        findreplace ==> requests_view(r@) == find_and_replace_updates(notes@, cards@, in_field@, find@, replace_with@, del_newline, as_space),
        !findreplace ==> requests_view(r@) == whole_field_updates(cards@, in_field@, replace_with@),
{
    if findreplace {
        find_and_replace(find, replace_with, in_field, cards, notes, del_newline, as_space)
    } else {
        replace_whole_fields(cards, in_field, replace_with, del_newline, as_space)
    }
}

/// A find and replace whose replacement is the text it finds, and which
/// leaves line breaks alone, sets every card's field to the value it has.
pub proof fn lemma_find_replace_same_text_keeps_fields(
    notes: Seq<NoteInfo>,
    cards: Seq<i64>,
    field: Seq<char>,
    find: Seq<char>,
    as_space: Option<bool>,
)
    ensures
        forall|i: int| 0 <= i < cards.len() ==> (#[trigger] find_and_replace_updates(notes, cards, field, find, find, false, as_space)[i])
            == spec_update_note_fields_request(cards[i], field, field_lookup(notes[i]@.fields, field)->0),
{
    assert forall|i: int| 0 <= i < cards.len() implies (#[trigger] find_and_replace_updates(notes, cards, field, find, find, false, as_space)[i])
        == spec_update_note_fields_request(cards[i], field, field_lookup(notes[i]@.fields, field)->0) by {
        lemma_replace_by_itself(field_lookup(notes[i]@.fields, field)->0, find);
    }
}

/// An edit that removes line breaks as spaces leaves no line break in the
/// value, whatever it finds and replaces before.
pub proof fn lemma_edits_with_spaces_leave_no_break(value: Seq<char>, find: Seq<char>, replace_with: Seq<char>)
    ensures
        forall|i: int| !occurs_at(edited_value(value, find, replace_with, true, true), line_break(), i),
{
    lemma_breaks_as_spaces_leave_no_break(replace_all(value, find, replace_with));
}

/// What each update of a find and replace sets: the update at index `i`
/// is an `updateNoteFields` request for card `i` that sets only field
/// `field`, to the note's value with every `find` replaced by
/// `replace_with`; when line breaks are removed, each `<br>` then becomes
/// nothing when `as_space` is `Some(false)`, and one space when it is
/// `Some(true)`.
pub proof fn lemma_find_and_replace_values(
    notes: Seq<NoteInfo>,
    cards: Seq<i64>,
    field: Seq<char>,
    find: Seq<char>,
    replace_with: Seq<char>,
    del_newline: bool,
    as_space: Option<bool>,
)
    ensures
        find_and_replace_updates(notes, cards, field, find, replace_with, del_newline, as_space).len() == cards.len(),
        forall|i: int| 0 <= i < cards.len() ==> {
            let u = #[trigger] find_and_replace_updates(notes, cards, field, find, replace_with, del_newline, as_space)[i];
            &&& u.action == "updateNoteFields"@
            &&& u.version == 6
            &&& u.params is Some
            &&& u.params->0.note is Some
            &&& u.params->0.note->0.id == cards[i]
            &&& u.params->0.cards is None && u.params->0.query is None
            &&& u.params->0.notes is None && u.params->0.model_name is None
        },
        !del_newline ==> forall|i: int| 0 <= i < cards.len() ==>
            (#[trigger] find_and_replace_updates(notes, cards, field, find, replace_with, del_newline, as_space)[i]).params->0.note->0.fields
                == seq![(field, replace_all(field_lookup(notes[i]@.fields, field)->0, find, replace_with))],
        del_newline && as_space == Some(false) ==> forall|i: int| 0 <= i < cards.len() ==>
            (#[trigger] find_and_replace_updates(notes, cards, field, find, replace_with, del_newline, as_space)[i]).params->0.note->0.fields
                == seq![(field, replace_all(
                    replace_all(field_lookup(notes[i]@.fields, field)->0, find, replace_with),
                    seq!['<', 'b', 'r', '>'],
                    Seq::<char>::empty(),
                ))],
        del_newline && as_space == Some(true) ==> forall|i: int| 0 <= i < cards.len() ==>
            (#[trigger] find_and_replace_updates(notes, cards, field, find, replace_with, del_newline, as_space)[i]).params->0.note->0.fields
                == seq![(field, replace_all(
                    replace_all(field_lookup(notes[i]@.fields, field)->0, find, replace_with),
                    seq!['<', 'b', 'r', '>'],
                    seq![' '],
                ))],
{
}

/// What each update of a whole-field replacement sets: the update at index
/// `i` is an `updateNoteFields` request for card `i` that sets only field
/// `field`, to `value` itself, character for character.
pub proof fn lemma_whole_field_values(cards: Seq<i64>, field: Seq<char>, value: Seq<char>)
    ensures
        whole_field_updates(cards, field, value).len() == cards.len(),
        forall|i: int| 0 <= i < cards.len() ==> {
            let u = #[trigger] whole_field_updates(cards, field, value)[i];
            &&& u.action == "updateNoteFields"@
            &&& u.version == 6
            &&& u.params is Some
            &&& u.params->0.note is Some
            &&& u.params->0.note->0.id == cards[i]
            &&& u.params->0.note->0.fields == seq![(field, value)]
            &&& u.params->0.cards is None && u.params->0.query is None
            &&& u.params->0.notes is None && u.params->0.model_name is None
        },
{
}

/// What `remove_newlines` and `edit_value` compute, in characters: a line
/// break is `<`, `b`, `r`, `>`; it becomes one space when `as_space`
/// holds and nothing otherwise; an edit replaces every `find` first, and
/// removes line breaks only when asked.
pub proof fn lemma_edit_value_text(value: Seq<char>, find: Seq<char>, replace_with: Seq<char>, as_space: bool)
    ensures
        replace_all(value, line_break(), line_break_replacement(true)) == replace_all(value, seq!['<', 'b', 'r', '>'], seq![' ']),
        replace_all(value, line_break(), line_break_replacement(false)) == replace_all(value, seq!['<', 'b', 'r', '>'], Seq::<char>::empty()),
        edited_value(value, find, replace_with, false, as_space) == replace_all(value, find, replace_with),
        edited_value(value, find, replace_with, true, true)
            == replace_all(replace_all(value, find, replace_with), seq!['<', 'b', 'r', '>'], seq![' ']),
        edited_value(value, find, replace_with, true, false)
            == replace_all(replace_all(value, find, replace_with), seq!['<', 'b', 'r', '>'], Seq::<char>::empty()),
{
}

} // verus!
