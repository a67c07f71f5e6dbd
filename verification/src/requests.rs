//! The requests sent to the AnkiConnect server: their shape, and the
//! requests this editor makes (decks, models, note search, note contents,
//! field updates).

use vstd::prelude::*;
use vstd::string::*;

verus! {

/// The AnkiConnect API version that every request names.
pub const API_VERSION: i32 = 6;

/// What a reply is decoded into.
pub enum ReqType {
    Deck,
    /// The names of the decks.
    Decks,
    Card,
    /// The ids of the notes a search found.
    Cards,
    /// The field names of a model.
    ModelFields,
    /// The names of the models.
    Models,
    /// The contents of notes.
    NoteInfo,
    /// Nothing: the reply is not read.
    Nothing,
}

/// A note given to the server: its id and the fields to set on it.
pub struct NoteInput {
    pub id: i64,
    /// Field name and new value, in the order they are sent.
    pub fields: Vec<(String, String)>,
}

/// The parameters of a request; absent ones are left out of the request.
pub struct Params {
    pub cards: Option<Vec<i64>>,
    pub query: Option<String>,
    pub note: Option<NoteInput>,
    pub notes: Option<Vec<i64>>,
    pub model_name: Option<String>,
}

/// A request to the AnkiConnect server.
pub struct Request {
    pub action: String,
    pub version: i32,
    pub params: Option<Params>,
}

/// A list of string pairs, by their contents.
pub open spec fn pairs_view(v: Seq<(String, String)>) -> Seq<(Seq<char>, Seq<char>)> {
    v.map_values(|p: (String, String)| (p.0@, p.1@))
}

/// No two pairs share a name: what a map from names to values holds.
pub open spec fn field_names_distinct(pairs: Seq<(Seq<char>, Seq<char>)>) -> bool {
    forall|i: int, j: int| 0 <= i < pairs.len() && 0 <= j < pairs.len() && i != j ==> pairs[i].0 != pairs[j].0
}

pub open spec fn opt_ids_view(o: Option<Vec<i64>>) -> Option<Seq<i64>> {
    match o {
        Some(v) => Some(v@),
        None => None,
    }
}

pub open spec fn opt_string_view(o: Option<String>) -> Option<Seq<char>> {
    match o {
        Some(s) => Some(s@),
        None => None,
    }
}

pub struct NoteInputView {
    pub id: i64,
    pub fields: Seq<(Seq<char>, Seq<char>)>,
}

pub struct ParamsView {
    pub cards: Option<Seq<i64>>,
    pub query: Option<Seq<char>>,
    pub note: Option<NoteInputView>,
    pub notes: Option<Seq<i64>>,
    pub model_name: Option<Seq<char>>,
}

pub struct RequestView {
    pub action: Seq<char>,
    pub version: i32,
    pub params: Option<ParamsView>,
}

impl View for NoteInput {
    type V = NoteInputView;

    open spec fn view(&self) -> NoteInputView {
        NoteInputView { id: self.id, fields: pairs_view(self.fields@) }
    }
}

impl View for Params {
    type V = ParamsView;

    open spec fn view(&self) -> ParamsView {
        ParamsView {
            cards: opt_ids_view(self.cards),
            query: opt_string_view(self.query),
            note: match self.note {
                Some(n) => Some(n@),
                None => None,
            },
            notes: opt_ids_view(self.notes),
            model_name: opt_string_view(self.model_name),
        }
    }
}

impl View for Request {
    type V = RequestView;

    open spec fn view(&self) -> RequestView {
        RequestView {
            action: self.action@,
            version: self.version,
            params: match self.params {
                Some(p) => Some(p@),
                None => None,
            },
        }
    }
}

/// Requests, by their contents.
pub open spec fn requests_view(r: Seq<Request>) -> Seq<RequestView> {
    r.map_values(|q: Request| q@)
}

/// Parameters with nothing set.
pub open spec fn no_params() -> ParamsView {
    ParamsView { cards: None, query: None, note: None, notes: None, model_name: None }
}

impl Default for NoteInput {
    fn default() -> (r: NoteInput)
        ensures
            r.id == 0,
            r.fields@.len() == 0,
    {
        NoteInput { id: 0, fields: Vec::new() }
    }
}

impl Default for Params {
    fn default() -> (r: Params)
        ensures
            r@ == no_params(),
    {
        Params { cards: None, query: None, note: None, notes: None, model_name: None }
    }
}

/// A request for `action`, at the API version, with the given parameters.
pub open spec fn request_view(action: Seq<char>, params: Option<ParamsView>) -> RequestView {
    RequestView { action, version: API_VERSION, params }
}

/// The request that lists the names of the decks.
pub open spec fn spec_deck_names_request() -> RequestView {
    request_view("deckNames"@, None)
}

/// The request that lists the names of the models.
pub open spec fn spec_model_names_request() -> RequestView {
    request_view("modelNames"@, None)
}

/// The request for the field names of model `model`.
pub open spec fn spec_model_field_names_request(model: Seq<char>) -> RequestView {
    request_view("modelFieldNames"@, Some(ParamsView { model_name: Some(model), ..no_params() }))
}

/// The request for the notes that search `query` finds.
pub open spec fn spec_find_notes_request(query: Seq<char>) -> RequestView {
    request_view("findNotes"@, Some(ParamsView { query: Some(query), ..no_params() }))
}

/// The request for the contents of note `id`.
pub open spec fn spec_notes_info_request(id: i64) -> RequestView {
    request_view("notesInfo"@, Some(ParamsView { notes: Some(seq![id]), ..no_params() }))
}

/// The request that sets field `field` of note `id` to `value`.
pub open spec fn spec_update_note_fields_request(id: i64, field: Seq<char>, value: Seq<char>) -> RequestView {
    request_view(
        "updateNoteFields"@,
        Some(ParamsView { note: Some(NoteInputView { id, fields: seq![(field, value)] }), ..no_params() }),
    )
}

/// The part of a search that restricts it to deck `deck`.
pub open spec fn spec_deck_clause(deck: Seq<char>) -> Seq<char> {
    "deck:\""@ + deck + "\""@
}

/// The search for the notes of deck `deck`; given a field, only those
/// whose field `field` matches `cards_with` (an empty `cards_with` asks for
/// an empty field).
pub open spec fn spec_find_notes_query(deck: Seq<char>, field: Option<Seq<char>>, cards_with: Seq<char>) -> Seq<char> {
    let in_deck = spec_deck_clause(deck);
    match field {
        Some(f) => in_deck + " "@ + f + ":"@ + cards_with,
        None => in_deck,
    }
}

/// The same search, where a non-empty `cards_with` asks for a field that
/// contains it anywhere.
pub open spec fn spec_find_notes_query_containing(deck: Seq<char>, field: Option<Seq<char>>, cards_with: Seq<char>) -> Seq<char> {
    let in_deck = spec_deck_clause(deck);
    match field {
        Some(f) => if cards_with.len() == 0 {
            in_deck + " "@ + f + ":"@
        } else {
            in_deck + " "@ + f + ":*"@ + cards_with + "*"@
        },
        None => in_deck,
    }
}

fn request(action: &str, params: Option<Params>) -> (r: Request)
    ensures
        r@ == request_view(action@, match params { Some(p) => Some(p@), None => None }),
{
    Request { action: String::from_str(action), version: API_VERSION, params }
}

/// The request that lists the names of the decks (`deck_names`).
pub fn deck_names_request() -> (r: Request)
    ensures
        r@ == spec_deck_names_request(),
{
    request("deckNames", None)
}

/// The request that lists the names of the models (`get_models`).
pub fn model_names_request() -> (r: Request)
    ensures
        r@ == spec_model_names_request(),
{
    request("modelNames", None)
}

/// The request for the field names of a model (`get_model_fields`).
pub fn model_field_names_request(model: &String) -> (r: Request)
    ensures
        r@ == spec_model_field_names_request(model@),
{
    request("modelFieldNames", Some(Params { model_name: Some(model.clone()), ..Default::default() }))
}

/// The request for the notes that a search finds.
pub fn find_notes_request(query: String) -> (r: Request)
    ensures
        r@ == spec_find_notes_request(query@),
{
    request("findNotes", Some(Params { cards: None, query: Some(query), ..Default::default() }))
}

/// The request for the contents of one note (`notes_info`).
pub fn notes_info_request(id: i64) -> (r: Request)
    ensures
        r@ == spec_notes_info_request(id),
{
    let mut notes: Vec<i64> = Vec::new();
    notes.push(id);
    assert(notes@ =~= seq![id]);
    request("notesInfo", Some(Params { notes: Some(notes), ..Default::default() }))
}

/// The requests of `notes_info`: one for each note, in order.
pub fn notes_info_requests(ids: &Vec<i64>) -> (r: Vec<Request>)
    ensures
        requests_view(r@) == Seq::new(ids@.len(), |i: int| spec_notes_info_request(ids@[i])),
{
    let mut out: Vec<Request> = Vec::new();
    let mut i: usize = 0;
    while i < ids.len()
        invariant
            i <= ids.len(),
            out@.len() == i,
            forall|j: int| 0 <= j < i ==> (#[trigger] out@[j])@ == spec_notes_info_request(ids@[j]),
        decreases ids.len() - i,
    {
        out.push(notes_info_request(ids[i]));
        i = i + 1;
    }
    assert(requests_view(out@) =~= Seq::new(ids@.len(), |i: int| spec_notes_info_request(ids@[i])));
    out
}

/// The requests of `get_model_fields`: one for each model, in order.
pub fn model_field_names_requests(models: &Vec<String>) -> (r: Vec<Request>)
    ensures
        requests_view(r@) == Seq::new(models@.len(), |i: int| spec_model_field_names_request(models@[i]@)),
{
    let mut out: Vec<Request> = Vec::new();
    let mut i: usize = 0;
    while i < models.len()
        invariant
            i <= models.len(),
            out@.len() == i,
            forall|j: int| 0 <= j < i ==> (#[trigger] out@[j])@ == spec_model_field_names_request(models@[j]@),
        decreases models.len() - i,
    {
        out.push(model_field_names_request(&models[i]));
        i = i + 1;
    }
    assert(requests_view(out@) =~= Seq::new(models@.len(), |i: int| spec_model_field_names_request(models@[i]@)));
    out
}

/// The request that sets one field of a note.
pub fn update_note_fields_request(id: i64, field: &str, value: String) -> (r: Request)
    ensures
        r@ == spec_update_note_fields_request(id, field@, value@),
        field_names_distinct(r@.params->0.note->0.fields),
{
    let mut fields: Vec<(String, String)> = Vec::new();
    fields.push((String::from_str(field), value));
    assert(pairs_view(fields@) =~= seq![(field@, value@)]);
    request("updateNoteFields", Some(Params { note: Some(NoteInput { id, fields }), ..Default::default() }))
}

fn deck_clause(deck: &str) -> (r: String)
    ensures
        r@ == spec_deck_clause(deck@),
{
    let mut q = String::from_str("deck:\"");
    q.append(deck);
    q.append("\"");
    q
}

/// The search that `find_notes` sends: the notes of deck `deck`, and,
/// given a field, only those whose field matches `cards_with`.
pub fn find_notes_query(deck: &str, field: Option<&str>, cards_with: &str) -> (r: String)
    ensures
        r@ == spec_find_notes_query(deck@, match field { Some(f) => Some(f@), None => None }, cards_with@),
{
    let mut q = deck_clause(deck);
    match field {
        Some(f) => {
            q.append(" ");
            q.append(f);
            q.append(":");
            q.append(cards_with);
        },
        None => {},
    }
    q
}

/// A search as `find_notes_query`, except that a non-empty `cards_with`
/// matches any field that contains it.
pub fn find_notes_query_containing(deck: &str, field: Option<&str>, cards_with: &str) -> (r: String)
    ensures
        r@ == spec_find_notes_query_containing(deck@, match field { Some(f) => Some(f@), None => None }, cards_with@),
{
    let mut q = deck_clause(deck);
    match field {
        Some(f) => {
            q.append(" ");
            q.append(f);
            if cards_with.is_empty() {
                q.append(":");
            } else {
                q.append(":*");
                q.append(cards_with);
                q.append("*");
            }
        },
        None => {},
    }
    q
}

/// The search that `check_for_cards` sends: the notes of deck `deck` whose
/// field `in_field` matches `cards_with`, an absent `cards_with` standing
/// for an empty one.
pub fn check_for_cards_request(deck: &str, cards_with: Option<String>, in_field: &str) -> (r: Request)
    ensures
        r@ == spec_find_notes_request(spec_find_notes_query(
            deck@,
            Some(in_field@),
            match cards_with {
                Some(c) => c@,
                None => Seq::empty(),
            },
        )),
{
    let cards_with = match cards_with {
        Some(e) => e,
        None => String::new(),
    };
    find_notes_request(find_notes_query(deck, Some(in_field), cards_with.as_str()))
}

/// What `check_for_cards` answers: the notes the search found, or, when
/// the search failed, the message `No cards found!`.
pub fn check_for_cards_outcome(found: Option<Vec<i64>>) -> (r: Result<Vec<i64>, String>)
    ensures
        match found {
            Some(ids) => r == Ok::<Vec<i64>, String>(ids),
            None => r is Err && r->Err_0@ == "No cards found!"@,
        },
{
    match found {
        Some(ids) => Ok(ids),
        None => Err(String::from_str("No cards found!")),
    }
}

/// Every note search stays within its deck: the search starts with the
/// deck clause, whatever the field and the text to match.
pub proof fn lemma_find_notes_query_within_deck(deck: Seq<char>, field: Option<Seq<char>>, cards_with: Seq<char>)
    ensures
        spec_find_notes_query(deck, field, cards_with).take(spec_deck_clause(deck).len() as int)
            == spec_deck_clause(deck),
        spec_find_notes_query_containing(deck, field, cards_with).take(spec_deck_clause(deck).len() as int)
            == spec_deck_clause(deck),
{
    let d = spec_deck_clause(deck);
    match field {
        Some(f) => {
            assert((d + " "@ + f + ":"@ + cards_with).take(d.len() as int) =~= d);
            assert((d + " "@ + f + ":"@).take(d.len() as int) =~= d);
            assert((d + " "@ + f + ":*"@ + cards_with + "*"@).take(d.len() as int) =~= d);
        },
        None => {
            assert(d.take(d.len() as int) =~= d);
        },
    }
}

/// The two searches agree when the text to match is empty: both ask for
/// an empty field.
pub proof fn lemma_find_notes_queries_agree_on_empty_text(deck: Seq<char>, field: Option<Seq<char>>)
    ensures
        spec_find_notes_query(deck, field, Seq::empty()) == spec_find_notes_query_containing(deck, field, Seq::empty()),
{
    match field {
        Some(f) => {
            let d = spec_deck_clause(deck);
            assert(d + " "@ + f + ":"@ + Seq::<char>::empty() =~= d + " "@ + f + ":"@);
        },
        None => {},
    }
}

/// The text of a note search: `deck:"`, the deck, `"`; then, given a
/// field, a space, the field, a colon and `cards_with` as it is (a `*`
/// included, which asks for any content).
pub proof fn lemma_find_notes_query_text(deck: Seq<char>, field: Option<Seq<char>>, cards_with: Seq<char>)
    ensures
        field is None ==> spec_find_notes_query(deck, field, cards_with)
            == seq!['d', 'e', 'c', 'k', ':', '"'] + deck + seq!['"'],
        field matches Some(f) ==> spec_find_notes_query(deck, field, cards_with)
            == seq!['d', 'e', 'c', 'k', ':', '"'] + deck + seq!['"', ' '] + f + seq![':'] + cards_with,
{
    reveal_strlit("deck:\"");
    reveal_strlit("\"");
    reveal_strlit(" ");
    reveal_strlit(":");
    assert("deck:\""@ =~= seq!['d', 'e', 'c', 'k', ':', '"']);
    assert("\""@ =~= seq!['"']);
    assert(" "@ =~= seq![' ']);
    assert(":"@ =~= seq![':']);
    match field {
        Some(f) => {
            assert(seq!['d', 'e', 'c', 'k', ':', '"'] + deck + seq!['"'] + seq![' '] + f + seq![':'] + cards_with
                =~= seq!['d', 'e', 'c', 'k', ':', '"'] + deck + seq!['"', ' '] + f + seq![':'] + cards_with);
        },
        None => {},
    }
}

/// The text of a search for fields that contain `cards_with`: as
/// `lemma_find_notes_query_text` for an empty `cards_with`; otherwise the
/// colon is followed by `*`, `cards_with` as it is, and `*`.
pub proof fn lemma_find_notes_query_containing_text(deck: Seq<char>, field: Option<Seq<char>>, cards_with: Seq<char>)
    ensures
        field is None ==> spec_find_notes_query_containing(deck, field, cards_with)
            == seq!['d', 'e', 'c', 'k', ':', '"'] + deck + seq!['"'],
        cards_with.len() == 0 ==> (field matches Some(f) ==> spec_find_notes_query_containing(deck, field, cards_with)
            == seq!['d', 'e', 'c', 'k', ':', '"'] + deck + seq!['"', ' '] + f + seq![':']),
        cards_with.len() > 0 ==> (field matches Some(f) ==> spec_find_notes_query_containing(deck, field, cards_with)
            == seq!['d', 'e', 'c', 'k', ':', '"'] + deck + seq!['"', ' '] + f + seq![':', '*'] + cards_with + seq!['*']),
{
    reveal_strlit("deck:\"");
    reveal_strlit("\"");
    reveal_strlit(" ");
    reveal_strlit(":");
    reveal_strlit(":*");
    reveal_strlit("*");
    assert("deck:\""@ =~= seq!['d', 'e', 'c', 'k', ':', '"']);
    assert("\""@ =~= seq!['"']);
    assert(" "@ =~= seq![' ']);
    assert(":"@ =~= seq![':']);
    assert(":*"@ =~= seq![':', '*']);
    assert("*"@ =~= seq!['*']);
    match field {
        Some(f) => {
            let d = seq!['d', 'e', 'c', 'k', ':', '"'] + deck;
            assert(d + seq!['"'] + seq![' '] + f + seq![':'] =~= d + seq!['"', ' '] + f + seq![':']);
            assert(d + seq!['"'] + seq![' '] + f + seq![':', '*'] + cards_with + seq!['*']
                =~= d + seq!['"', ' '] + f + seq![':', '*'] + cards_with + seq!['*']);
        },
        None => {},
    }
}

/// The requests the editor sends, field by field: each names its
/// AnkiConnect action, API version 6, and only the parameters it needs.
pub proof fn lemma_request_shapes(model: Seq<char>, query: Seq<char>, id: i64, field: Seq<char>, value: Seq<char>)
    ensures
        spec_deck_names_request().action == "deckNames"@,
        spec_deck_names_request().version == 6,
        spec_deck_names_request().params is None,
        spec_model_names_request().action == "modelNames"@,
        spec_model_names_request().version == 6,
        spec_model_names_request().params is None,
        spec_model_field_names_request(model).action == "modelFieldNames"@,
        spec_model_field_names_request(model).version == 6,
        spec_model_field_names_request(model).params == Some(ParamsView {
            cards: None, query: None, note: None, notes: None, model_name: Some(model),
        }),
        spec_find_notes_request(query).action == "findNotes"@,
        spec_find_notes_request(query).version == 6,
        spec_find_notes_request(query).params == Some(ParamsView {
            cards: None, query: Some(query), note: None, notes: None, model_name: None,
        }),
        spec_notes_info_request(id).action == "notesInfo"@,
        spec_notes_info_request(id).version == 6,
        spec_notes_info_request(id).params == Some(ParamsView {
            cards: None, query: None, note: None, notes: Some(seq![id]), model_name: None,
        }),
        spec_update_note_fields_request(id, field, value).action == "updateNoteFields"@,
        spec_update_note_fields_request(id, field, value).version == 6,
        spec_update_note_fields_request(id, field, value).params == Some(ParamsView {
            cards: None, query: None, note: Some(NoteInputView { id, fields: seq![(field, value)] }), notes: None, model_name: None,
        }),
{
}

} // verus!
