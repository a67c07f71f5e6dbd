//! Notes and models as the editor sees them: the contents of a note read
//! from a reply, and the models with their field names.

use vstd::prelude::*;
use vstd::string::*;
use itertools::Itertools;
use crate::json::{JsonValue, get, lookup};
use crate::requests::{pairs_view, field_names_distinct};

verus! {

/// The contents of a note.
pub struct NoteInfo {
    note_id: i64,
    model_name: String,
    tags: Vec<String>,
    fields: Vec<(String, String)>,
}

pub struct NoteInfoView {
    pub note_id: i64,
    pub model_name: Seq<char>,
    pub tags: Seq<Seq<char>>,
    /// Field name and value, in the order of the reply.
    pub fields: Seq<(Seq<char>, Seq<char>)>,
}

/// A list of strings, by their contents.
pub open spec fn strings_view(v: Seq<String>) -> Seq<Seq<char>> {
    v.map_values(|s: String| s@)
}

impl View for NoteInfo {
    type V = NoteInfoView;

    closed spec fn view(&self) -> NoteInfoView {
        NoteInfoView {
            note_id: self.note_id,
            model_name: self.model_name@,
            tags: strings_view(self.tags@),
            fields: pairs_view(self.fields@),
        }
    }
}

impl NoteInfo {
    /// A note's field names are distinct, as the keys of the reply's
    /// `fields` object are.
    #[verifier::type_invariant]
    closed spec fn well_formed(self) -> bool {
        field_names_distinct(pairs_view(self.fields@))
    }
}

/// A model: its name and the names of its fields.
pub struct Model {
    pub name: String,
    pub fields: Vec<String>,
}

impl Model {
    pub fn from(name: String, fields: Vec<String>) -> (m: Self)
        ensures
            m.name == name,
            m.fields == fields,
    {
        Model { name, fields }
    }
}

/// The value of the first field from index `i` on whose name is `name`.
pub open spec fn field_lookup_from(fields: Seq<(Seq<char>, Seq<char>)>, name: Seq<char>, i: int) -> Option<Seq<char>>
    decreases fields.len() - i,
{
    if i < 0 || i >= fields.len() {
        None
    } else if fields[i].0 == name {
        Some(fields[i].1)
    } else {
        field_lookup_from(fields, name, i + 1)
    }
}

/// The value of the field named `name`.
pub open spec fn field_lookup(fields: Seq<(Seq<char>, Seq<char>)>, name: Seq<char>) -> Option<Seq<char>> {
    field_lookup_from(fields, name, 0)
}

/// Field lookup finds the first field with the name: when it answers a
/// value, that is the value of a field so named with no such field before
/// it; when it answers nothing, no field has the name.
pub proof fn lemma_field_lookup_first(fields: Seq<(Seq<char>, Seq<char>)>, name: Seq<char>)
    ensures
        match field_lookup(fields, name) {
            Some(v) => exists|i: int|
                0 <= i < fields.len() && fields[i].0 == name && fields[i].1 == v
                    && forall|j: int| 0 <= j < i ==> (#[trigger] fields[j]).0 != name,
            None => forall|i: int| 0 <= i < fields.len() ==> (#[trigger] fields[i]).0 != name,
        },
{
    lemma_field_lookup_from_first(fields, name, 0);
}

proof fn lemma_field_lookup_from_first(fields: Seq<(Seq<char>, Seq<char>)>, name: Seq<char>, k: int)
    requires
        0 <= k,
        forall|j: int| 0 <= j < k && j < fields.len() ==> (#[trigger] fields[j]).0 != name,
    ensures
        match field_lookup_from(fields, name, k) {
            Some(v) => exists|i: int|
                0 <= i < fields.len() && fields[i].0 == name && fields[i].1 == v
                    && forall|j: int| 0 <= j < i ==> (#[trigger] fields[j]).0 != name,
            None => forall|i: int| 0 <= i < fields.len() ==> (#[trigger] fields[i]).0 != name,
        },
    decreases fields.len() - k,
{
    if k < fields.len() && fields[k].0 != name {
        lemma_field_lookup_from_first(fields, name, k + 1);
    }
}

impl NoteInfo {
    /// The value of the field named `name`, if the note has one.
    pub fn field(&self, name: &str) -> (r: Option<&String>)
        ensures
            match field_lookup(self@.fields, name@) {
                Some(v) => r is Some && r->0@ == v,
                None => r is None,
            },
    {
        let wanted = String::from_str(name);
        let mut i: usize = 0;
        while i < self.fields.len()
            invariant
                i <= self.fields.len(),
                wanted@ == name@,
                field_lookup(self@.fields, name@) == field_lookup_from(self@.fields, name@, i as int),
            decreases self.fields.len() - i,
        {
            if self.fields[i].0 == wanted {
                return Some(&self.fields[i].1);
            }
            i = i + 1;
        }
        None
    }

    /// The name of the note's model.
    pub fn model(&self) -> (r: &str)
        ensures
            r@ == self@.model_name,
    {
        self.model_name.as_str()
    }

    /// The note's fields: name and value; no two share a name.
    pub fn fields(&self) -> (r: &Vec<(String, String)>)
        ensures
            pairs_view(r@) == self@.fields,
            field_names_distinct(self@.fields),
    {
        proof {
            use_type_invariant(self);
        }
        &self.fields
    }
}

/// The string a JSON value holds, if it is one.
pub open spec fn json_string(v: JsonValue) -> Option<Seq<char>> {
    match v {
        JsonValue::Str(s) => Some(s@),
        _ => None,
    }
}

/// The value of one field in a note's reply: an object whose member
/// `value` is a string.
pub open spec fn json_field_value(v: JsonValue) -> Option<Seq<char>> {
    match v {
        JsonValue::Object(m) => match lookup(m@, "value"@) {
            Some(x) => json_string(x),
            None => None,
        },
        _ => None,
    }
}

/// The fields of a note from the reply's `fields` member: an object whose
/// members have distinct names and each carry a field value.
pub open spec fn json_fields(v: Option<JsonValue>) -> Option<Seq<(Seq<char>, Seq<char>)>> {
    match v {
        Some(JsonValue::Object(fs)) => if crate::json::keys_distinct(fs@) && (forall|i: int|
            0 <= i < fs@.len() ==> (#[trigger] json_field_value(fs@[i].1)) is Some) {
            Some(Seq::new(fs@.len(), |i: int| (fs@[i].0@, json_field_value(fs@[i].1)->0)))
        } else {
            None
        },
        _ => None,
    }
}

/// The note id from the reply's `cards` member: the last element of a
/// non-empty array, an integer.
pub open spec fn json_note_id(v: Option<JsonValue>) -> Option<i64> {
    match v {
        Some(JsonValue::Array(cs)) => if cs@.len() > 0 {
            match cs@.last() {
                JsonValue::Number(Some(n), _) => Some(n),
                _ => None,
            }
        } else {
            None
        },
        _ => None,
    }
}

/// A string member of the reply.
pub open spec fn json_opt_string(v: Option<JsonValue>) -> Option<Seq<char>> {
    match v {
        Some(x) => json_string(x),
        None => None,
    }
}

/// The tags from the reply's `tags` member: an array of strings.
pub open spec fn json_strings(v: Option<JsonValue>) -> Option<Seq<Seq<char>>> {
    match v {
        Some(JsonValue::Array(ts)) => if forall|i: int|
            0 <= i < ts@.len() ==> (#[trigger] json_string(ts@[i])) is Some {
            Some(Seq::new(ts@.len(), |i: int| json_string(ts@[i])->0))
        } else {
            None
        },
        _ => None,
    }
}

/// The note that one object of a `notesInfo` reply describes, if it has
/// the shape of one.
pub open spec fn note_from_json(m: Seq<(String, JsonValue)>) -> Option<NoteInfoView> {
    let fields = json_fields(lookup(m, "fields"@));
    let id = json_note_id(lookup(m, "cards"@));
    let model = json_opt_string(lookup(m, "modelName"@));
    let tags = json_strings(lookup(m, "tags"@));
    if fields is Some && id is Some && model is Some && tags is Some {
        Some(NoteInfoView { note_id: id->0, model_name: model->0, tags: tags->0, fields: fields->0 })
    } else {
        None
    }
}

fn string_of(v: &JsonValue) -> (r: Option<String>)
    ensures
        match json_string(*v) {
            Some(s) => r is Some && r->0@ == s,
            None => r is None,
        },
{
    match v {
        JsonValue::Str(s) => Some(s.clone()),
        _ => None,
    }
}

fn field_value_of(v: &JsonValue) -> (r: Option<String>)
    ensures
        match json_field_value(*v) {
            Some(s) => r is Some && r->0@ == s,
            None => r is None,
        },
{
    match v {
        JsonValue::Object(m) => match get(m, "value") {
            Some(x) => string_of(x),
            None => None,
        },
        _ => None,
    }
}

/// Whether the members of an object have distinct names.
fn keys_are_distinct(fs: &Vec<(String, JsonValue)>) -> (b: bool)
    ensures
        b == crate::json::keys_distinct(fs@),
{
    let mut i: usize = 0;
    while i < fs.len()
        invariant
            i <= fs.len(),
            forall|a: int, b: int| 0 <= a < i && 0 <= b < fs@.len() && a != b ==> fs@[a].0@ != fs@[b].0@,
        decreases fs.len() - i,
    {
        let mut j: usize = 0;
        while j < fs.len()
            invariant
                i < fs.len(),
                j <= fs.len(),
                forall|a: int, b: int| 0 <= a < i && 0 <= b < fs@.len() && a != b ==> fs@[a].0@ != fs@[b].0@,
                forall|b: int| 0 <= b < j && b != i ==> fs@[i as int].0@ != fs@[b].0@,
            decreases fs.len() - j,
        {
            if j != i && fs[i].0 == fs[j].0 {
                return false;
            }
            j = j + 1;
        }
        i = i + 1;
    }
    true
}

fn field_pairs_of(fs: &Vec<(String, JsonValue)>) -> (r: Option<Vec<(String, String)>>)
    ensures
        match json_fields(Some(JsonValue::Object(*fs))) {
            Some(s) => r is Some && pairs_view(r->0@) == s,
            None => r is None,
        },
        r is Some ==> field_names_distinct(pairs_view(r->0@)),
{
    if !keys_are_distinct(fs) {
        return None;
    }
    let mut out: Vec<(String, String)> = Vec::new();
    let mut i: usize = 0;
    while i < fs.len()
        invariant
            i <= fs.len(),
            out@.len() == i,
            forall|j: int| 0 <= j < i ==> (#[trigger] json_field_value(fs@[j].1)) is Some,
            forall|j: int| 0 <= j < i ==> (#[trigger] out@[j]).0@ == fs@[j].0@ && out@[j].1@ == json_field_value(fs@[j].1)->0,
        decreases fs.len() - i,
    {
        match field_value_of(&fs[i].1) {
            Some(s) => {
                out.push((fs[i].0.clone(), s));
            },
            None => {
                assert(json_field_value(fs@[i as int].1) is None);
                return None;
            },
        }
        i = i + 1;
    }
    assert(pairs_view(out@) =~= Seq::new(fs@.len(), |j: int| (fs@[j].0@, json_field_value(fs@[j].1)->0)));
    assert forall|a: int, b: int| 0 <= a < pairs_view(out@).len() && 0 <= b < pairs_view(out@).len() && a != b
        implies pairs_view(out@)[a].0 != pairs_view(out@)[b].0 by {
        assert(pairs_view(out@)[a].0 == fs@[a].0@);
        assert(pairs_view(out@)[b].0 == fs@[b].0@);
    }
    Some(out)
}

fn fields_of(v: Option<&JsonValue>) -> (r: Option<Vec<(String, String)>>)
    ensures
        match json_fields(match v { Some(x) => Some(*x), None => None }) {
            Some(s) => r is Some && pairs_view(r->0@) == s,
            None => r is None,
        },
        r is Some ==> field_names_distinct(pairs_view(r->0@)),
{
    match v {
        Some(JsonValue::Object(fs)) => field_pairs_of(fs),
        _ => None,
    }
}

fn note_id_of(v: Option<&JsonValue>) -> (r: Option<i64>)
    ensures
        r == json_note_id(match v { Some(x) => Some(*x), None => None }),
{
    match v {
        Some(JsonValue::Array(cs)) => {
            if cs.len() == 0 {
                return None;
            }
            match &cs[cs.len() - 1] {
                JsonValue::Number(Some(n), _) => Some(*n),
                _ => None,
            }
        },
        _ => None,
    }
}

fn string_items_of(ts: &Vec<JsonValue>) -> (r: Option<Vec<String>>)
    ensures
        match json_strings(Some(JsonValue::Array(*ts))) {
            Some(s) => r is Some && strings_view(r->0@) == s,
            None => r is None,
        },
{
    let mut out: Vec<String> = Vec::new();
    let mut i: usize = 0;
    while i < ts.len()
        invariant
            i <= ts.len(),
            out@.len() == i,
            forall|j: int| 0 <= j < i ==> (#[trigger] json_string(ts@[j])) is Some,
            forall|j: int| 0 <= j < i ==> (#[trigger] out@[j])@ == json_string(ts@[j])->0,
        decreases ts.len() - i,
    {
        match string_of(&ts[i]) {
            Some(s) => {
                out.push(s);
            },
            None => {
                assert(json_string(ts@[i as int]) is None);
                return None;
            },
        }
        i = i + 1;
    }
    assert(strings_view(out@) =~= Seq::new(ts@.len(), |j: int| json_string(ts@[j])->0));
    Some(out)
}

fn strings_of(v: Option<&JsonValue>) -> (r: Option<Vec<String>>)
    ensures
        match json_strings(match v { Some(x) => Some(*x), None => None }) {
            Some(s) => r is Some && strings_view(r->0@) == s,
            None => r is None,
        },
{
    match v {
        Some(JsonValue::Array(ts)) => string_items_of(ts),
        _ => None,
    }
}

fn read_note(m: &Vec<(String, JsonValue)>) -> (r: Option<NoteInfo>)
    ensures
        match note_from_json(m@) {
            Some(n) => r is Some && r->0@ == n,
            None => r is None,
        },
{
    let fields = fields_of(get(m, "fields"));
    let note_id = note_id_of(get(m, "cards"));
    let model_name = match get(m, "modelName") {
        Some(x) => string_of(x),
        None => None,
    };
    let tags = strings_of(get(m, "tags"));
    match (fields, note_id, model_name, tags) {
        (Some(fields), Some(note_id), Some(model_name), Some(tags)) => Some(
            NoteInfo { note_id, model_name, tags, fields },
        ),
        _ => None,
    }
}

/// What a note read from a reply object holds, member by member: its id
/// is the last element of the non-empty array `cards`; its model is the
/// string `modelName`; its tags are the strings of the array `tags`, in
/// order; its fields are the members of the object `fields`, in order,
/// each named by its key and valued by the string member `value` of its
/// own object. An object that lacks any of these members, or whose
/// `cards` is empty, is not read as a note.
pub proof fn lemma_note_from_json_reads(m: Seq<(String, JsonValue)>)
    ensures
        note_from_json(m) matches Some(n) ==> {
            &&& match lookup(m, "cards"@) {
                Some(JsonValue::Array(cs)) => cs@.len() > 0 && match cs@[cs@.len() - 1] {
                    JsonValue::Number(Some(k), _) => k == n.note_id,
                    _ => false,
                },
                _ => false,
            }
            &&& match lookup(m, "modelName"@) {
                Some(JsonValue::Str(t)) => t@ == n.model_name,
                _ => false,
            }
            &&& match lookup(m, "tags"@) {
                Some(JsonValue::Array(ts)) => ts@.len() == n.tags.len() && forall|i: int| 0 <= i < ts@.len() ==>
                    match #[trigger] ts@[i] {
                        JsonValue::Str(t) => t@ == n.tags[i],
                        _ => false,
                    },
                _ => false,
            }
            &&& match lookup(m, "fields"@) {
                Some(JsonValue::Object(fs)) => fs@.len() == n.fields.len() && forall|i: int| 0 <= i < fs@.len() ==> {
                    &&& (#[trigger] fs@[i]).0@ == n.fields[i].0
                    &&& match fs@[i].1 {
                        JsonValue::Object(o) => match lookup(o@, "value"@) {
                            Some(JsonValue::Str(v)) => v@ == n.fields[i].1,
                            _ => false,
                        },
                        _ => false,
                    }
                },
                _ => false,
            }
        },
        lookup(m, "fields"@) is None || lookup(m, "cards"@) is None || lookup(m, "modelName"@) is None
            || lookup(m, "tags"@) is None ==> note_from_json(m) is None,
        (match lookup(m, "cards"@) {
            Some(JsonValue::Array(cs)) => cs@.len() == 0,
            _ => false,
        }) ==> note_from_json(m) is None,
{
    if let Some(n) = note_from_json(m) {
        let fv = lookup(m, "fields"@);
        let tv = lookup(m, "tags"@);
        if let Some(JsonValue::Object(fs)) = fv {
            assert forall|i: int| 0 <= i < fs@.len() implies {
                &&& (#[trigger] fs@[i]).0@ == n.fields[i].0
                &&& match fs@[i].1 {
                    JsonValue::Object(o) => match lookup(o@, "value"@) {
                        Some(JsonValue::Str(v)) => v@ == n.fields[i].1,
                        _ => false,
                    },
                    _ => false,
                }
            } by {
                assert(json_field_value(fs@[i].1) is Some);
            }
        }
        if let Some(JsonValue::Array(ts)) = tv {
            assert forall|i: int| 0 <= i < ts@.len() implies match #[trigger] ts@[i] {
                JsonValue::Str(t) => t@ == n.tags[i],
                _ => false,
            } by {
                assert(json_string(ts@[i]) is Some);
            }
        }
    }
}

/// Whether one object of a `notesInfo` reply describes a note: it has
/// `fields` (an object with distinct names, each an object with a string
/// `value`), a non-empty array `cards` whose last element is an integer, a
/// string `modelName` and an array of strings `tags`.
pub fn is_note_json(m: &Vec<(String, JsonValue)>) -> (b: bool)
    ensures
        b == (note_from_json(m@) is Some),
{
    read_note(m).is_some()
}

/// Reads one object of a `notesInfo` reply (`notes_info`): its fields
/// (`fields`, each an object with a string `value`), its id (the last
/// element of `cards`), its model (`modelName`) and its tags (`tags`).
pub fn note_info_from_json(m: &Vec<(String, JsonValue)>) -> (r: NoteInfo)
    requires
        note_from_json(m@) is Some,
    ensures
        r@ == note_from_json(m@)->0,
        field_names_distinct(r@.fields),
{
    let r = read_note(m).unwrap();
    proof {
        use_type_invariant(&r);
    }
    r
}

/// Every object of a `notesInfo` reply describes a note.
pub open spec fn reply_notes_well_formed(maps: Seq<Vec<(String, JsonValue)>>) -> bool {
    forall|i: int| 0 <= i < maps.len() ==> (#[trigger] note_from_json(maps[i]@)) is Some
}

/// Whether every object of a `notesInfo` reply describes a note.
pub fn is_notes_json(maps: &Vec<Vec<(String, JsonValue)>>) -> (b: bool)
    ensures
        b == reply_notes_well_formed(maps@),
{
    let mut i: usize = 0;
    while i < maps.len()
        invariant
            i <= maps.len(),
            forall|j: int| 0 <= j < i ==> (#[trigger] note_from_json(maps@[j]@)) is Some,
        decreases maps.len() - i,
    {
        if !is_note_json(&maps[i]) {
            return false;
        }
        i = i + 1;
    }
    true
}

/// The notes of one `notesInfo` reply (`notes_info`), in the order of the
/// reply.
pub fn notes_from_json(maps: &Vec<Vec<(String, JsonValue)>>) -> (r: Vec<NoteInfo>)
    requires
        reply_notes_well_formed(maps@),
    ensures
        r@.len() == maps@.len(),
        forall|i: int| 0 <= i < maps@.len() ==> (#[trigger] r@[i])@ == note_from_json(maps@[i]@)->0,
{
    let mut out: Vec<NoteInfo> = Vec::new();
    let mut i: usize = 0;
    while i < maps.len()
        invariant
            i <= maps.len(),
            out@.len() == i,
            reply_notes_well_formed(maps@),
            forall|j: int| 0 <= j < i ==> (#[trigger] out@[j])@ == note_from_json(maps@[j]@)->0,
        decreases maps.len() - i,
    {
        assert(note_from_json(maps@[i as int]@) is Some);
        out.push(note_info_from_json(&maps[i]));
        i = i + 1;
    }
    out
}

/// Notes, by their contents.
pub open spec fn notes_view(notes: Seq<NoteInfo>) -> Seq<NoteInfoView> {
    notes.map_values(|n: NoteInfo| n@)
}

/// The notes of one reply, by their contents.
pub open spec fn reply_notes(maps: Seq<Vec<(String, JsonValue)>>) -> Seq<NoteInfoView> {
    maps.map_values(|m: Vec<(String, JsonValue)>| note_from_json(m@)->0)
}

/// The notes of several `notesInfo` replies, one reply after the other.
pub open spec fn notes_of_replies(replies: Seq<Vec<Vec<(String, JsonValue)>>>) -> Seq<NoteInfoView>
    decreases replies.len(),
{
    if replies.len() == 0 {
        Seq::empty()
    } else {
        notes_of_replies(replies.drop_last()) + reply_notes(replies.last()@)
    }
}

/// Every object of every reply describes a note.
pub open spec fn replies_well_formed(replies: Seq<Vec<Vec<(String, JsonValue)>>>) -> bool {
    forall|i: int| 0 <= i < replies.len() ==> reply_notes_well_formed(#[trigger] replies[i]@)
}

/// The notes of the replies to the `notesInfo` requests of `notes_info`,
/// joined in the order of the requests, and within a reply in its order.
pub fn notes_from_replies(replies: &Vec<Vec<Vec<(String, JsonValue)>>>) -> (r: Vec<NoteInfo>)
    requires
        replies_well_formed(replies@),
    ensures
        notes_view(r@) == notes_of_replies(replies@),
{
    let mut out: Vec<NoteInfo> = Vec::new();
    let mut i: usize = 0;
    assert(replies@.take(0) =~= Seq::<Vec<Vec<(String, JsonValue)>>>::empty());
    assert(notes_view(out@) =~= Seq::<NoteInfoView>::empty());
    while i < replies.len()
        invariant
            i <= replies.len(),
            replies_well_formed(replies@),
            notes_view(out@) == notes_of_replies(replies@.take(i as int)),
        decreases replies.len() - i,
    {
        assert(reply_notes_well_formed(replies@[i as int]@));
        let mut batch = notes_from_json(&replies[i]);
        let ghost before = out@;
        let ghost added = batch@;
        assert(notes_view(added) =~= reply_notes(replies@[i as int]@));
        out.append(&mut batch);
        assert(notes_view(out@) =~= notes_view(before) + notes_view(added)) by {
            assert(out@ =~= before + added);
        }
        assert(replies@.take(i + 1).drop_last() =~= replies@.take(i as int));
        assert(replies@.take(i + 1).last() == replies@[i as int]);
        i = i + 1;
    }
    assert(replies@.take(replies@.len() as int) =~= replies@);
    out
}

/// A list with each element kept at its first occurrence only, in order.
pub open spec fn first_occurrences<A>(s: Seq<A>) -> Seq<A>
    decreases s.len(),
{
    if s.len() == 0 {
        s
    } else {
        let d = first_occurrences(s.drop_last());
        if d.contains(s.last()) {
            d
        } else {
            d.push(s.last())
        }
    }
}

/// `Itertools::unique` on a list of strings, collected: each string at its
/// first occurrence only, in order (equal strings are those with equal
/// contents).
#[verifier::external_body]
fn unique_strings(v: Vec<String>) -> (r: Vec<String>)
    ensures
        strings_view(r@) == first_occurrences(strings_view(v@)),
{
    v.into_iter().unique().collect()
}

/// The names of the models of the notes, in order.
pub open spec fn model_names_of(notes: Seq<NoteInfo>) -> Seq<Seq<char>> {
    notes.map_values(|n: NoteInfo| n@.model_name)
}

/// The distinct model names of some notes, in the order they first appear
/// (`get_models_from_deck`).
pub fn unique_model_names(notes: &Vec<NoteInfo>) -> (r: Vec<String>)
    ensures
        strings_view(r@) == first_occurrences(model_names_of(notes@)),
{
    let mut names: Vec<String> = Vec::new();
    let mut i: usize = 0;
    while i < notes.len()
        invariant
            i <= notes.len(),
            names@.len() == i,
            forall|j: int| 0 <= j < i ==> (#[trigger] names@[j])@ == notes@[j]@.model_name,
        decreases notes.len() - i,
    {
        names.push(String::from_str(notes[i].model()));
        i = i + 1;
    }
    assert(strings_view(names@) =~= model_names_of(notes@));
    unique_strings(names)
}

/// Keeping first occurrences leaves no element twice, and keeps every
/// element and nothing else.
pub proof fn lemma_first_occurrences<A>(s: Seq<A>)
    ensures
        first_occurrences(s).no_duplicates(),
        forall|x: A| first_occurrences(s).contains(x) <==> s.contains(x),
    decreases s.len(),
{
    if s.len() > 0 {
        let t = s.drop_last();
        lemma_first_occurrences(t);
        let d = first_occurrences(t);
        assert forall|x: A| s.contains(x) <==> t.contains(x) || x == s.last() by {
            if s.contains(x) {
                let k = choose|k: int| 0 <= k < s.len() && s[k] == x;
                if k < s.len() - 1 {
                    assert(t[k] == x);
                }
            }
            if t.contains(x) {
                let k = choose|k: int| 0 <= k < t.len() && t[k] == x;
                assert(s[k] == x);
            }
            if x == s.last() {
                assert(s[s.len() - 1] == x);
            }
        }
        if !d.contains(s.last()) {
            let e = d.push(s.last());
            assert forall|x: A| e.contains(x) <==> d.contains(x) || x == s.last() by {
                if e.contains(x) {
                    let k = choose|k: int| 0 <= k < e.len() && e[k] == x;
                    if k < d.len() {
                        assert(d[k] == x);
                    }
                }
                if d.contains(x) {
                    let k = choose|k: int| 0 <= k < d.len() && d[k] == x;
                    assert(e[k] == x);
                }
                if x == s.last() {
                    assert(e[d.len() as int] == x);
                }
            }
            assert forall|a: int, b: int| 0 <= a < e.len() && 0 <= b < e.len() && a != b implies e[a] != e[b] by {
                if a < d.len() && b < d.len() {
                } else if a == d.len() {
                    assert(d[b] == e[b]);
                } else {
                    assert(d[a] == e[a]);
                }
            }
        }
    }
}

/// Keeping first occurrences goes element by element: the first element is
/// always kept, and adding an element at the end keeps it exactly when it
/// has not appeared before.
pub proof fn lemma_first_occurrences_steps<A>(s: Seq<A>, x: A)
    ensures
        first_occurrences(s.push(x)) == if s.contains(x) {
            first_occurrences(s)
        } else {
            first_occurrences(s).push(x)
        },
        first_occurrences(seq![x]) == seq![x],
{
    lemma_first_occurrences(s);
    assert(s.push(x).drop_last() =~= s);
    assert(s.push(x).last() == x);
    assert(seq![x].drop_last() =~= Seq::<A>::empty());
    assert(seq![x].last() == x);
    assert(first_occurrences(Seq::<A>::empty()) =~= Seq::<A>::empty());
    assert(!Seq::<A>::empty().contains(x));
    assert(seq![x] =~= Seq::<A>::empty().push(x));
}

/// Joining the notes of replies goes reply by reply, in order: the notes of
/// two runs of replies are those of the first run followed by those of the
/// second, and one reply gives its own notes in its order.
pub proof fn lemma_notes_of_replies_join(a: Seq<Vec<Vec<(String, JsonValue)>>>, b: Seq<Vec<Vec<(String, JsonValue)>>>)
    ensures
        notes_of_replies(a + b) == notes_of_replies(a) + notes_of_replies(b),
        forall|r: Vec<Vec<(String, JsonValue)>>| #[trigger] notes_of_replies(seq![r]) == reply_notes(r@),
    decreases b.len(),
{
    if b.len() == 0 {
        assert(a + b =~= a);
        assert(notes_of_replies(a) + Seq::<NoteInfoView>::empty() =~= notes_of_replies(a));
    } else {
        lemma_notes_of_replies_join(a, b.drop_last());
        assert((a + b).drop_last() =~= a + b.drop_last());
        assert((a + b).last() == b.last());
        assert(notes_of_replies(a) + notes_of_replies(b.drop_last()) + reply_notes(b.last()@)
            =~= notes_of_replies(a) + (notes_of_replies(b.drop_last()) + reply_notes(b.last()@)));
    }
    assert forall|r: Vec<Vec<(String, JsonValue)>>| #[trigger] notes_of_replies(seq![r]) == reply_notes(r@) by {
        assert(seq![r].drop_last() =~= Seq::<Vec<Vec<(String, JsonValue)>>>::empty());
        assert(seq![r].last() == r);
        assert(notes_of_replies(Seq::<Vec<Vec<(String, JsonValue)>>>::empty()) =~= Seq::<NoteInfoView>::empty());
        assert(Seq::<NoteInfoView>::empty() + reply_notes(r@) =~= reply_notes(r@));
    }
}

/// The pairs of model name and field names (`find_models`), in order.
pub fn find_models(models: Vec<Model>) -> (r: Vec<(String, Vec<String>)>)
    ensures
        r@.len() == models@.len(),
        forall|i: int| 0 <= i < models@.len() ==> (#[trigger] r@[i]).0 == models@[i].name && r@[i].1 == models@[i].fields,
{
    let mut models = models;
    let ghost all = models@;
    let mut out: Vec<(String, Vec<String>)> = Vec::new();
    while models.len() > 0
        invariant
            models@.len() + out@.len() == all.len(),
            models@ == all.take(models@.len() as int),
            forall|j: int| 0 <= j < out@.len() ==> (#[trigger] out@[j]).0 == all[models@.len() + j].name
                && out@[j].1 == all[models@.len() + j].fields,
        decreases models.len(),
    {
        let m = models.pop().unwrap();
        out.insert(0, (m.name, m.fields));
    }
    out
}

/// Pairs each model name with its field names (`get_model_fields`).
pub fn models_with_fields(names: Vec<String>, fields: Vec<Vec<String>>) -> (r: Vec<Model>)
    requires
        names@.len() == fields@.len(),
    ensures
        r@.len() == names@.len(),
        forall|i: int| 0 <= i < names@.len() ==> (#[trigger] r@[i]).name == names@[i] && r@[i].fields == fields@[i],
{
    let mut names = names;
    let mut fields = fields;
    let ghost all_names = names@;
    let ghost all_fields = fields@;
    let mut out: Vec<Model> = Vec::new();
    while names.len() > 0
        invariant
            names@.len() == fields@.len(),
            names@.len() + out@.len() == all_names.len(),
            all_names.len() == all_fields.len(),
            names@ == all_names.take(names@.len() as int),
            fields@ == all_fields.take(fields@.len() as int),
            forall|j: int| 0 <= j < out@.len() ==> (#[trigger] out@[j]).name == all_names[names@.len() + j]
                && out@[j].fields == all_fields[names@.len() + j],
        decreases names.len(),
    {
        let name = names.pop().unwrap();
        let f = fields.pop().unwrap();
        out.insert(0, Model::from(name, f));
    }
    out
}

} // verus!
