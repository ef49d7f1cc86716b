//! Loosely typed reading of push-event payloads.

use vstd::prelude::*;
use crate::text::text_eq;

verus! {

/// A JSON document as far as event extraction reads it. Numbers keep only
/// their kind; object members keep their names and values.
pub enum JsonValue {
    Null,
    Bool(bool),
    Number,
    Str(String),
    Array(Vec<JsonValue>),
    Object(Vec<(String, JsonValue)>),
}

/// Why a payload could not be read at all.
#[derive(PartialEq, Eq, Structural, Debug, Clone, Copy)]
pub enum ParseError {
    /// The body is not valid JSON.
    InvalidJson,
}

/// Whether simd-json accepts the bytes as a JSON text.
pub uninterp spec fn json_parses(b: Seq<u8>) -> bool;

/// The document simd-json reads from the bytes, when it accepts them.
pub uninterp spec fn json_doc_of(b: Seq<u8>) -> JsonModel;

#[verifier::external_type_specification]
#[verifier::external_body]
pub struct ExOwnedValue(simd_json::OwnedValue);

#[verifier::external_type_specification]
#[verifier::external_body]
pub struct ExJsonError(simd_json::Error);

/// Relies on simd_json's owned `Value` variants: moves each into the
/// library's JSON model, numbers reduced to their kind.
#[verifier::external_body]
fn json_from_owned(v: simd_json::OwnedValue) -> JsonValue {
    match v {
        simd_json::OwnedValue::Static(simd_json::StaticNode::Null) => JsonValue::Null,
        simd_json::OwnedValue::Static(simd_json::StaticNode::Bool(b)) => JsonValue::Bool(b),
        simd_json::OwnedValue::Static(_) => JsonValue::Number,
        simd_json::OwnedValue::String(s) => JsonValue::Str(s),
        simd_json::OwnedValue::Array(a) => JsonValue::Array((*a).into_iter().map(json_from_owned).collect()),
        simd_json::OwnedValue::Object(o) => JsonValue::Object((*o).into_iter().map(|(k, x)| (k, json_from_owned(x))).collect()),
    }
}

/// Relies on simd_json::to_owned_value (with `value-no-dup-keys`): it fails
/// exactly on input it does not accept as JSON, and otherwise returns the
/// document, each object holding every member name once. It parses a
/// private copy, since it rewrites its buffer.
#[verifier::external_body]
fn parse_json(b: &[u8]) -> (r: Result<JsonValue, simd_json::Error>)
    ensures
        r.is_ok() == json_parses(b@),
        r matches Ok(v) ==> json_view(v) == json_doc_of(b@),
{
    let mut buf = b.to_vec();
    simd_json::to_owned_value(&mut buf).map(json_from_owned)
}

/// A JSON document as mathematical values: arrays in order, objects as a
/// map from member name to value, numbers by their kind only.
pub ghost enum JsonModel {
    Null,
    Bool(bool),
    Number,
    Str(Seq<char>),
    Array(Seq<JsonModel>),
    Object(Map<Seq<char>, JsonModel>),
}

/// Whether `i` is the first member of `fields` named `k`.
pub open spec fn first_member(fields: Seq<(String, JsonValue)>, k: Seq<char>, i: int) -> bool {
    0 <= i < fields.len() && fields[i].0@ == k && forall|j: int| 0 <= j < i ==> fields[j].0@ != k
}

/// The document a value holds; of members with the same name, the first counts.
pub open spec fn json_view(v: JsonValue) -> JsonModel
    decreases v,
{
    match v {
        JsonValue::Null => JsonModel::Null,
        JsonValue::Bool(b) => JsonModel::Bool(b),
        JsonValue::Number => JsonModel::Number,
        JsonValue::Str(s) => JsonModel::Str(s@),
        JsonValue::Array(items) => JsonModel::Array(
            Seq::new(
                items@.len(),
                |i: int|
                    if 0 <= i < items@.len() {
                        json_view(items@[i])
                    } else {
                        JsonModel::Null
                    },
            ),
        ),
        JsonValue::Object(fields) => JsonModel::Object(
            Map::new(
                |k: Seq<char>| exists|i: int| first_member(fields@, k, i),
                |k: Seq<char>|
                    {
                        let i = choose|i: int| first_member(fields@, k, i);
                        if 0 <= i < fields@.len() {
                            json_view(fields@[i].1)
                        } else {
                            JsonModel::Null
                        }
                    },
            ),
        ),
    }
}

/// Member `key` of an object; nothing for any other value.
pub open spec fn json_get(v: Option<JsonModel>, key: Seq<char>) -> Option<JsonModel> {
    match v {
        Some(JsonModel::Object(m)) => if m.contains_key(key) {
            Some(m[key])
        } else {
            None
        },
        _ => None,
    }
}

pub open spec fn json_text(v: Option<JsonModel>) -> Option<Seq<char>> {
    match v {
        Some(JsonModel::Str(s)) => Some(s),
        _ => None,
    }
}

pub open spec fn json_array_len(v: Option<JsonModel>) -> Option<nat> {
    match v {
        Some(JsonModel::Array(items)) => Some(items.len()),
        _ => None,
    }
}

/// A push event as mathematical values.
pub ghost struct EventModel {
    pub repository: Seq<char>,
    pub git_ref: Seq<char>,
    pub sender: Option<Seq<char>>,
    pub commit_count: Option<nat>,
}

/// The repository, ref, sender and commit count read from one payload.
pub struct WebhookEvent {
    pub repository_full_name: String,
    pub git_ref: String,
    pub sender: Option<String>,
    pub commit_count: Option<usize>,
}

impl View for WebhookEvent {
    type V = EventModel;

    open spec fn view(&self) -> EventModel {
        EventModel {
            repository: self.repository_full_name@,
            git_ref: self.git_ref@,
            sender: crate::config::opt_text(self.sender),
            commit_count: match self.commit_count {
                Some(n) => Some(n as nat),
                None => None,
            },
        }
    }
}

pub open spec fn text_or_empty(t: Option<Seq<char>>) -> Seq<char> {
    match t {
        Some(s) => s,
        None => Seq::empty(),
    }
}

pub open spec fn key_repository() -> Seq<char> {
    seq!['r', 'e', 'p', 'o', 's', 'i', 't', 'o', 'r', 'y']
}

pub open spec fn key_full_name() -> Seq<char> {
    seq!['f', 'u', 'l', 'l', '_', 'n', 'a', 'm', 'e']
}

pub open spec fn key_ref() -> Seq<char> {
    seq!['r', 'e', 'f']
}

pub open spec fn key_sender() -> Seq<char> {
    seq!['s', 'e', 'n', 'd', 'e', 'r']
}

pub open spec fn key_login() -> Seq<char> {
    seq!['l', 'o', 'g', 'i', 'n']
}

pub open spec fn key_commits() -> Seq<char> {
    seq!['c', 'o', 'm', 'm', 'i', 't', 's']
}

/// The event a document describes: `repository.full_name` and `ref` as text
/// (empty when absent or not a string), `sender.login` when it is a string,
/// and the length of `commits` when it is an array.
pub open spec fn event_of(doc: JsonModel) -> EventModel {
    EventModel {
        repository: text_or_empty(
            json_text(json_get(json_get(Some(doc), key_repository()), key_full_name())),
        ),
        git_ref: text_or_empty(json_text(json_get(Some(doc), key_ref()))),
        sender: json_text(json_get(json_get(Some(doc), key_sender()), key_login())),
        commit_count: json_array_len(json_get(Some(doc), key_commits())),
    }
}

pub open spec fn view_opt(v: Option<&JsonValue>) -> Option<JsonModel> {
    match v {
        Some(x) => Some(json_view(*x)),
        None => None,
    }
}

/// Looks up member `key` of `v` when `v` is an object (its first member of
/// that name).
pub fn get_member<'a>(v: Option<&'a JsonValue>, key: &str) -> (r: Option<&'a JsonValue>)
    ensures
        json_get(view_opt(v), key@) == view_opt(r),
{
    let fields = match v {
        Some(JsonValue::Object(fields)) => fields,
        _ => return None,
    };
    let ghost m = json_view(JsonValue::Object(*fields));
    let mut i: usize = 0;
    while i < fields.len()
        invariant
            0 <= i <= fields@.len(),
            v == Some(&JsonValue::Object(*fields)),
            forall|j: int| 0 <= j < i ==> fields@[j].0@ != key@,
        decreases fields@.len() - i,
    {
        if text_eq(fields[i].0.as_str(), key) {
            proof {
                assert(first_member(fields@, key@, i as int));
                let c = choose|c: int| first_member(fields@, key@, c);
                assert(c == i as int) by {
                    if c < i {
                        assert(fields@[c].0@ != key@);
                    } else if c > i {
                        assert(fields@[i as int].0@ != key@);
                    }
                }
            }
            return Some(&fields[i].1);
        }
        i = i + 1;
    }
    None
}

fn member_text(v: Option<&JsonValue>) -> (r: Option<String>)
    ensures
        crate::config::opt_text(r) == json_text(view_opt(v)),
{
    match v {
        Some(JsonValue::Str(s)) => Some(s.clone()),
        _ => None,
    }
}

/// Reads the event fields out of a parsed payload; missing or mistyped
/// fields give empty text or nothing, never an error.
pub fn event_from_json(doc: &JsonValue) -> (r: WebhookEvent)
    ensures
        r@ == event_of(json_view(*doc)),
{
    let root = Some(doc);
    let repo = member_text(get_member(get_member(root, "repository"), "full_name"));
    let git_ref = member_text(get_member(root, "ref"));
    let sender = member_text(get_member(get_member(root, "sender"), "login"));
    let commits = get_member(root, "commits");
    let commit_count = match commits {
        Some(JsonValue::Array(items)) => Some(items.len()),
        _ => None,
    };
    proof {
        reveal_strlit("repository");
        reveal_strlit("full_name");
        reveal_strlit("ref");
        reveal_strlit("sender");
        reveal_strlit("login");
        reveal_strlit("commits");
        assert("repository"@ =~= key_repository());
        assert("full_name"@ =~= key_full_name());
        assert("ref"@ =~= key_ref());
        assert("sender"@ =~= key_sender());
        assert("login"@ =~= key_login());
        assert("commits"@ =~= key_commits());
    }
    let repository_full_name = match repo {
        Some(s) => s,
        None => String::new(),
    };
    let git_ref = match git_ref {
        Some(s) => s,
        None => String::new(),
    };
    WebhookEvent { repository_full_name, git_ref, sender, commit_count }
}

/// Parses a request body and reads the push event from it. Fails exactly
/// when the body is not valid JSON; otherwise the event is the one the
/// document describes.
pub fn extract(raw_body: &[u8]) -> (r: Result<WebhookEvent, ParseError>)
    ensures
        r.is_err() == !json_parses(raw_body@),
        r matches Err(e) ==> e == ParseError::InvalidJson,
        r matches Ok(e) ==> e@ == event_of(json_doc_of(raw_body@)),
{
    match parse_json(raw_body) {
        Ok(doc) => Ok(event_from_json(&doc)),
        Err(_) => Err(ParseError::InvalidJson),
    }
}

} // verus!
