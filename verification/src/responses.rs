//! The replies of the AnkiConnect server, and what a request's reply is
//! decoded into.

use vstd::prelude::*;
use crate::json::JsonValue;
use crate::requests::ReqType;

verus! {

/// A reply that carries one id.
pub struct CardResponse {
    pub result: Option<i64>,
    pub error: Option<String>,
}

/// A reply that carries note ids.
pub struct CardsResponse {
    pub result: Option<Vec<i64>>,
    pub error: Option<String>,
}

/// A reply that carries deck names.
pub struct DecksResponse {
    pub result: Option<Vec<String>>,
    pub error: Option<String>,
}

/// A reply that carries one model name.
pub struct ModelResponse {
    pub result: Option<String>,
    pub error: Option<String>,
}

/// A reply that carries model names.
pub struct ModelsResponse {
    pub result: Option<Vec<String>>,
    pub error: Option<String>,
}

/// A reply that carries the field names of a model.
pub struct ModelFieldsResponse {
    pub result: Option<Vec<String>>,
    pub error: Option<String>,
}

/// A reply that carries the contents of notes, one JSON object each.
pub struct NoteInfoResponse {
    pub result: Vec<Vec<(String, JsonValue)>>,
    pub error: Option<String>,
}

/// Which reply a request expects to read.
pub enum ReplyKind {
    Cards,
    Decks,
    ModelFields,
    Models,
    NotesInfo,
    /// The reply is not read.
    Unread,
}

/// A reply, read as the request expected.
pub enum Reply {
    Cards(CardsResponse),
    Decks(DecksResponse),
    ModelFields(ModelFieldsResponse),
    Models(ModelsResponse),
    NotesInfo(NoteInfoResponse),
    Unread,
}

/// What a request's reply is decoded into.
pub enum PostResult {
    Cards(Vec<i64>),
    Decks(Vec<String>),
    Models(Vec<String>),
    ModelFields(Vec<String>),
    NotesInfo(Vec<Vec<(String, JsonValue)>>),
    /// Nothing was read.
    Nothing,
}

/// The reply that a request of type `t` reads.
pub open spec fn spec_reply_kind(t: ReqType) -> ReplyKind {
    match t {
        ReqType::Cards => ReplyKind::Cards,
        ReqType::Decks => ReplyKind::Decks,
        ReqType::ModelFields => ReplyKind::ModelFields,
        ReqType::Models => ReplyKind::Models,
        ReqType::NoteInfo => ReplyKind::NotesInfo,
        _ => ReplyKind::Unread,
    }
}

/// A reply whose result is there wherever decoding reads one.
pub open spec fn reply_complete(reply: Reply) -> bool {
    match reply {
        Reply::Cards(b) => b.result is Some,
        Reply::Decks(b) => b.result is Some,
        Reply::ModelFields(b) => b.result is Some,
        Reply::Models(b) => b.result is Some,
        Reply::NotesInfo(_) => true,
        Reply::Unread => true,
    }
}

/// What a complete reply is decoded into.
pub open spec fn decoded(reply: Reply) -> PostResult {
    match reply {
        Reply::Cards(b) => PostResult::Cards(b.result->0),
        Reply::Decks(b) => PostResult::Decks(b.result->0),
        Reply::ModelFields(b) => PostResult::ModelFields(b.result->0),
        Reply::Models(b) => PostResult::Models(b.result->0),
        Reply::NotesInfo(b) => PostResult::NotesInfo(b.result),
        Reply::Unread => PostResult::Nothing,
    }
}

impl ReqType {
    /// The reply that a request of this type reads (`get_req`).
    pub fn reply_kind(&self) -> (k: ReplyKind)
        ensures
            k == spec_reply_kind(*self),
    {
        match self {
            ReqType::Cards => ReplyKind::Cards,
            ReqType::Decks => ReplyKind::Decks,
            ReqType::ModelFields => ReplyKind::ModelFields,
            ReqType::Models => ReplyKind::Models,
            ReqType::NoteInfo => ReplyKind::NotesInfo,
            _ => ReplyKind::Unread,
        }
    }
}

impl PostResult {
    /// Decodes a reply (`get_req`): the result it carries, under the
    /// variant of its kind.
    pub fn from_reply(reply: Reply) -> (r: PostResult)
        requires
            reply_complete(reply),
        ensures
            r == decoded(reply),
    {
        match reply {
            Reply::Cards(b) => PostResult::Cards(b.result.unwrap()),
            Reply::Decks(b) => PostResult::Decks(b.result.unwrap()),
            Reply::ModelFields(b) => PostResult::ModelFields(b.result.unwrap()),
            Reply::Models(b) => PostResult::Models(b.result.unwrap()),
            Reply::NotesInfo(b) => PostResult::NotesInfo(b.result),
            Reply::Unread => PostResult::Nothing,
        }
    }

    /// Decodes a reply as `from_reply` does, except that a reply to a note
    /// search without a result gives no notes.
    pub fn from_reply_lenient(reply: Reply) -> (r: PostResult)
        requires
            reply matches Reply::Cards(_) || reply_complete(reply),
        ensures
            match reply {
                Reply::Cards(b) => {
                    &&& r is Cards
                    &&& r->Cards_0@ == match b.result {
                        Some(ids) => ids@,
                        None => Seq::<i64>::empty(),
                    }
                },
                _ => r == decoded(reply),
            },
    {
        match reply {
            Reply::Cards(b) => PostResult::Cards(
                match b.result {
                    Some(ids) => ids,
                    None => Vec::new(),
                },
            ),
            other => PostResult::from_reply(other),
        }
    }

    /// The note ids carried.
    pub fn to_cards(&self) -> (r: Vec<i64>)
        requires
            self is Cards,
        ensures
            r@ == self->Cards_0@,
    {
        match self {
            PostResult::Cards(a) => a.clone(),
            _ => Vec::new(),
        }
    }

    /// The deck names carried.
    pub fn to_decks(&self) -> (r: Vec<String>)
        requires
            self is Decks,
        ensures
            r@ == self->Decks_0@,
    {
        match self {
            PostResult::Decks(a) => clone_strings(a),
            _ => Vec::new(),
        }
    }

    /// The note contents carried; the result is given up to the caller.
    pub fn to_notes_info(self) -> (r: Vec<Vec<(String, JsonValue)>>)
        requires
            self is NotesInfo,
        ensures
            r == self->NotesInfo_0,
    {
        match self {
            PostResult::NotesInfo(a) => a,
            _ => Vec::new(),
        }
    }

    /// The model names carried.
    pub fn to_model_names(&self) -> (r: Vec<String>)
        requires
            self is Models,
        ensures
            r@ == self->Models_0@,
    {
        match self {
            PostResult::Models(a) => clone_strings(a),
            _ => Vec::new(),
        }
    }

    /// The field names carried.
    pub fn to_model_fields(&self) -> (r: Vec<String>)
        requires
            self is ModelFields,
        ensures
            r@ == self->ModelFields_0@,
    {
        match self {
            PostResult::ModelFields(a) => clone_strings(a),
            _ => Vec::new(),
        }
    }
}

/// Reading a decoded reply gives back the result the server sent.
pub proof fn lemma_decoded_reply_gives_back_result(reply: Reply)
    requires
        reply_complete(reply),
    ensures
        reply matches Reply::Cards(b) ==> decoded(reply) is Cards && decoded(reply)->Cards_0 == b.result->0,
        reply matches Reply::Decks(b) ==> decoded(reply) is Decks && decoded(reply)->Decks_0 == b.result->0,
        reply matches Reply::Models(b) ==> decoded(reply) is Models && decoded(reply)->Models_0 == b.result->0,
        reply matches Reply::ModelFields(b) ==> decoded(reply) is ModelFields && decoded(reply)->ModelFields_0 == b.result->0,
        reply matches Reply::NotesInfo(b) ==> decoded(reply) is NotesInfo && decoded(reply)->NotesInfo_0 == b.result,
        reply is Unread ==> decoded(reply) is Nothing,
{
}

/// Each request type reads the reply named for it: note ids for a note
/// search, deck names, model field names, model names and note contents;
/// the other types read nothing.
pub proof fn lemma_reply_kinds()
    ensures
        spec_reply_kind(ReqType::Cards) is Cards,
        spec_reply_kind(ReqType::Decks) is Decks,
        spec_reply_kind(ReqType::ModelFields) is ModelFields,
        spec_reply_kind(ReqType::Models) is Models,
        spec_reply_kind(ReqType::NoteInfo) is NotesInfo,
        spec_reply_kind(ReqType::Deck) is Unread,
        spec_reply_kind(ReqType::Card) is Unread,
        spec_reply_kind(ReqType::Nothing) is Unread,
{
}

/// A copy of a list of strings.
pub fn clone_strings(v: &Vec<String>) -> (r: Vec<String>)
    ensures
        r@ == v@,
{
    let mut out: Vec<String> = Vec::new();
    let mut i: usize = 0;
    while i < v.len()
        invariant
            i <= v.len(),
            out@ == v@.take(i as int),
        decreases v.len() - i,
    {
        out.push(v[i].clone());
        i = i + 1;
        assert(out@ =~= v@.take(i as int));
    }
    assert(out@ =~= v@);
    out
}

} // verus!
