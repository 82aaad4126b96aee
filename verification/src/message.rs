//! What travels over the bus: requests to the dispatcher and the envelopes
//! that answer them, each with its shape on the wire.
//!
//! A request is a JSON object tagged by `kind`; an envelope is a JSON object
//! tagged by `status`. Numbers are written in decimal notation, strings as
//! JSON writes them.

use vstd::prelude::*;
use crate::json::{
    fields_of_json, integer_of_json, json_of_text, json_of_texts, read_fields, read_integer,
    read_text, read_texts, text_of_json, texts_of_json, view_of, views, views_of, write_text,
    write_texts,
};
use crate::text::{decimal, decimal_text};

verus! {

/// One unit of work asked of the dispatcher. People are named by number.
///
/// On the wire, `Add` is the kind `AddEdge` and `Delete` the kind `RemoveEdge`,
/// with the two people as `a` and `b`; `Friends` is `ListNeighbors`,
/// `Recommendation` is `Recommend`, `AddNode` is `AddNode` and `DeleteNode` is
/// `RemoveNode`, with the person as `id`.
#[derive(Debug, Clone, Copy, PartialEq, Eq, Structural)]
pub enum Request {
    Add { uid_a: i64, uid_b: i64 },
    Delete { uid_a: i64, uid_b: i64 },
    Friends { uid: i64 },
    Recommendation { uid: i64 },
    AddNode { uid: i64 },
    DeleteNode { uid: i64 },
}

/// A request about a friendship, as written on the wire.
pub open spec fn edge_wire(kind: Seq<char>, a: int, b: int) -> Seq<char> {
    "{\"kind\":\""@ + kind + "\",\"a\":"@ + decimal(a) + ",\"b\":"@ + decimal(b) + "}"@
}

/// A request about one person, as written on the wire.
pub open spec fn node_wire(kind: Seq<char>, id: int) -> Seq<char> {
    "{\"kind\":\""@ + kind + "\",\"id\":"@ + decimal(id) + "}"@
}

/// The request that a kind and the numbers found beside it spell, if any.
/// Numbers that the kind does not ask for are passed over.
pub open spec fn request_of(kind: Seq<char>, a: Option<i64>, b: Option<i64>, id: Option<i64>) -> Option<Request> {
    if kind == "AddEdge"@ {
        match (a, b) {
            (Some(uid_a), Some(uid_b)) => Some(Request::Add { uid_a, uid_b }),
            _ => None,
        }
    } else if kind == "RemoveEdge"@ {
        match (a, b) {
            (Some(uid_a), Some(uid_b)) => Some(Request::Delete { uid_a, uid_b }),
            _ => None,
        }
    } else if kind == "ListNeighbors"@ {
        match id {
            Some(uid) => Some(Request::Friends { uid }),
            None => None,
        }
    } else if kind == "Recommend"@ {
        match id {
            Some(uid) => Some(Request::Recommendation { uid }),
            None => None,
        }
    } else if kind == "AddNode"@ {
        match id {
            Some(uid) => Some(Request::AddNode { uid }),
            None => None,
        }
    } else if kind == "RemoveNode"@ {
        match id {
            Some(uid) => Some(Request::DeleteNode { uid }),
            None => None,
        }
    } else {
        None
    }
}

/// The raw value of the first field called `name`, if there is one.
pub open spec fn field(fields: Seq<(Seq<char>, Seq<char>)>, name: Seq<char>) -> Option<Seq<char>>
    decreases fields.len(),
{
    if fields.len() == 0 {
        None
    } else if fields[0].0 == name {
        Some(fields[0].1)
    } else {
        field(fields.skip(1), name)
    }
}

/// The number in the field called `name`, if the field is there and holds one.
pub open spec fn number_field(fields: Seq<(Seq<char>, Seq<char>)>, name: Seq<char>) -> Option<i64> {
    match field(fields, name) {
        Some(raw) => integer_of_json(raw),
        None => None,
    }
}

/// The string in the field called `name`, if the field is there and holds one.
pub open spec fn text_field(fields: Seq<(Seq<char>, Seq<char>)>, name: Seq<char>) -> Option<Seq<char>> {
    match field(fields, name) {
        Some(raw) => text_of_json(raw),
        None => None,
    }
}

/// The request that the fields of an object spell, if any.
pub open spec fn request_of_fields(fields: Seq<(Seq<char>, Seq<char>)>) -> Option<Request> {
    match text_field(fields, "kind"@) {
        Some(kind) => request_of(
            kind,
            number_field(fields, "a"@),
            number_field(fields, "b"@),
            number_field(fields, "id"@),
        ),
        None => None,
    }
}

/// The request that a payload spells, if any.
pub open spec fn request_of_payload(payload: Seq<char>) -> Option<Request> {
    match fields_of_json(payload) {
        Some(fields) => request_of_fields(fields),
        None => None,
    }
}

/// A payload that spells no request.
#[derive(Debug, Clone, Copy, PartialEq, Eq, Structural)]
pub struct DecodeFailed;

/// Whether two texts hold the same characters.
pub fn same_text(left: &str, right: &str) -> (same: bool)
    ensures
        same == (left@ == right@),
{
    let l = String::from_str(left);
    let r = String::from_str(right);
    l == r
}

/// Finds the raw value of the first field called `name`.
pub fn find_field<'a>(fields: &'a Vec<(String, String)>, name: &str) -> (raw: Option<&'a String>)
    ensures
        view_of_ref(raw) == field(fields_seq(fields@), name@),
{
    let mut i: usize = 0;
    assert(fields_seq(fields@).skip(0) =~= fields_seq(fields@));
    while i < fields.len()
        invariant
            i <= fields.len(),
            field(fields_seq(fields@), name@) == field(fields_seq(fields@).skip(i as int), name@),
        decreases fields.len() - i,
    {
        let ghost rest = fields_seq(fields@).skip(i as int);
        assert(rest[0] == (fields@[i as int].0@, fields@[i as int].1@));
        assert(rest.skip(1) =~= fields_seq(fields@).skip(i + 1));
        if same_text(fields[i].0.as_str(), name) {
            return Some(&fields[i].1);
        }
        i = i + 1;
    }
    None
}

/// The names and raw values of a list of fields.
pub open spec fn fields_seq(fields: Seq<(String, String)>) -> Seq<(Seq<char>, Seq<char>)> {
    fields.map_values(|f: (String, String)| (f.0@, f.1@))
}

/// The characters of a borrowed string that may be absent.
pub open spec fn view_of_ref(text: Option<&String>) -> Option<Seq<char>> {
    match text {
        Some(t) => Some(t@),
        None => None,
    }
}

fn find_number(fields: &Vec<(String, String)>, name: &str) -> (number: Option<i64>)
    ensures
        number == number_field(fields_seq(fields@), name@),
{
    match find_field(fields, name) {
        Some(raw) => read_integer(raw.as_str()),
        None => None,
    }
}

fn find_text(fields: &Vec<(String, String)>, name: &str) -> (text: Option<String>)
    ensures
        view_of(text) == text_field(fields_seq(fields@), name@),
{
    match find_field(fields, name) {
        Some(raw) => read_text(raw.as_str()),
        None => None,
    }
}

impl Request {
    /// The request as it is written on the wire.
    pub open spec fn wire(self) -> Seq<char> {
        match self {
            Request::Add { uid_a, uid_b } => edge_wire("AddEdge"@, uid_a as int, uid_b as int),
            Request::Delete { uid_a, uid_b } => edge_wire("RemoveEdge"@, uid_a as int, uid_b as int),
            Request::Friends { uid } => node_wire("ListNeighbors"@, uid as int),
            Request::Recommendation { uid } => node_wire("Recommend"@, uid as int),
            Request::AddNode { uid } => node_wire("AddNode"@, uid as int),
            Request::DeleteNode { uid } => node_wire("RemoveNode"@, uid as int),
        }
    }

    /// Writes the request as the body of a bus message.
    pub fn encode(&self) -> (body: String)
        ensures
            body@ == self.wire(),
    {
        match *self {
            Request::Add { uid_a, uid_b } => encode_edge("AddEdge", uid_a, uid_b),
            Request::Delete { uid_a, uid_b } => encode_edge("RemoveEdge", uid_a, uid_b),
            Request::Friends { uid } => encode_node("ListNeighbors", uid),
            Request::Recommendation { uid } => encode_node("Recommend", uid),
            Request::AddNode { uid } => encode_node("AddNode", uid),
            Request::DeleteNode { uid } => encode_node("RemoveNode", uid),
        }
    }

    /// Puts a request together from the kind and the numbers of a message.
    /// `None` where the kind is unknown or a number it asks for is missing.
    pub fn from_parts(kind: &str, a: Option<i64>, b: Option<i64>, id: Option<i64>) -> (request: Option<Request>)
        ensures
            request == request_of(kind@, a, b, id),
    {
        if same_text(kind, "AddEdge") {
            match (a, b) {
                (Some(uid_a), Some(uid_b)) => Some(Request::Add { uid_a, uid_b }),
                _ => None,
            }
        } else if same_text(kind, "RemoveEdge") {
            match (a, b) {
                (Some(uid_a), Some(uid_b)) => Some(Request::Delete { uid_a, uid_b }),
                _ => None,
            }
        } else if same_text(kind, "ListNeighbors") {
            match id {
                Some(uid) => Some(Request::Friends { uid }),
                None => None,
            }
        } else if same_text(kind, "Recommend") {
            match id {
                Some(uid) => Some(Request::Recommendation { uid }),
                None => None,
            }
        } else if same_text(kind, "AddNode") {
            match id {
                Some(uid) => Some(Request::AddNode { uid }),
                None => None,
            }
        } else if same_text(kind, "RemoveNode") {
            match id {
                Some(uid) => Some(Request::DeleteNode { uid }),
                None => None,
            }
        } else {
            None
        }
    }

    /// Reads a request from the fields of a JSON object.
    pub fn from_fields(fields: &Vec<(String, String)>) -> (request: Option<Request>)
        ensures
            request == request_of_fields(fields_seq(fields@)),
    {
        match find_text(fields, "kind") {
            Some(kind) => Request::from_parts(
                kind.as_str(),
                find_number(fields, "a"),
                find_number(fields, "b"),
                find_number(fields, "id"),
            ),
            None => None,
        }
    }

    /// Reads a request from the body of a bus message. Anything that is no
    /// JSON object, has no known `kind` or lacks a number is refused.
    pub fn decode(payload: &str) -> (request: Result<Request, DecodeFailed>)
        ensures
            request == match request_of_payload(payload@) {
                Some(r) => Ok::<Request, DecodeFailed>(r),
                None => Err::<Request, DecodeFailed>(DecodeFailed),
            },
    {
        match read_fields(payload) {
            Some(fields) => match Request::from_fields(&fields) {
                Some(request) => Ok(request),
                None => Err(DecodeFailed),
            },
            None => Err(DecodeFailed),
        }
    }
}

fn encode_edge(kind: &str, a: i64, b: i64) -> (body: String)
    ensures
        body@ == edge_wire(kind@, a as int, b as int),
{
    let mut body = String::from_str("{\"kind\":\"");
    body.append(kind);
    body.append("\",\"a\":");
    body.append(decimal_text(a).as_str());
    body.append(",\"b\":");
    body.append(decimal_text(b).as_str());
    body.append("}");
    body
}

fn encode_node(kind: &str, id: i64) -> (body: String)
    ensures
        body@ == node_wire(kind@, id as int),
{
    let mut body = String::from_str("{\"kind\":\"");
    body.append(kind);
    body.append("\",\"id\":");
    body.append(decimal_text(id).as_str());
    body.append("}");
    body
}

/// What an operation hands back to the requester.
#[derive(Debug, PartialEq, Eq)]
pub enum Reply {
    /// The operation is done; there is nothing to hand back but the word `ok`.
    Done,
    /// A list of people, in the order of the store.
    Friends(Vec<String>),
    /// The answer to a yes-or-no question.
    Flag(bool),
}

/// The mathematical value of a `Reply`.
pub enum ReplyView {
    Done,
    Friends(Seq<Seq<char>>),
    Flag(bool),
}

impl View for Reply {
    type V = ReplyView;

    open spec fn view(&self) -> ReplyView {
        match *self {
            Reply::Done => ReplyView::Done,
            Reply::Friends(friends) => ReplyView::Friends(views(friends@)),
            Reply::Flag(flag) => ReplyView::Flag(flag),
        }
    }
}

/// Copies a list of strings, string by string.
pub fn copy_texts(texts: &Vec<String>) -> (copy: Vec<String>)
    ensures
        copy@ == texts@,
{
    let mut copy: Vec<String> = Vec::new();
    let mut i: usize = 0;
    while i < texts.len()
        invariant
            i <= texts.len(),
            copy@ == texts@.take(i as int),
        decreases texts.len() - i,
    {
        copy.push(texts[i].clone());
        proof {
            assert(texts@.take(i + 1) =~= texts@.take(i as int).push(texts@[i as int]));
        }
        i = i + 1;
    }
    proof {
        assert(texts@.take(i as int) =~= texts@);
    }
    copy
}

impl Clone for Reply {
    fn clone(&self) -> (copy: Self)
        ensures
            copy@ == self@,
    {
        match self {
            Reply::Done => Reply::Done,
            Reply::Friends(friends) => Reply::Friends(copy_texts(friends)),
            Reply::Flag(flag) => Reply::Flag(*flag),
        }
    }
}

/// The envelope that answers one request: the payload of a success, or the
/// detail of a failure.
#[derive(Debug, Clone, PartialEq, Eq)]
pub enum Response {
    Success { data: Reply },
    Failure { detail: String },
}

/// The mathematical value of a `Response`.
pub enum ResponseView {
    Success { data: ReplyView },
    Failure { detail: Seq<char> },
}

impl View for Response {
    type V = ResponseView;

    open spec fn view(&self) -> ResponseView {
        match *self {
            Response::Success { data } => ResponseView::Success { data: data@ },
            Response::Failure { detail } => ResponseView::Failure { detail: detail@ },
        }
    }
}

/// The value of a response that may be absent.
pub open spec fn response_view(response: Option<Response>) -> Option<ResponseView> {
    match response {
        Some(r) => Some(r@),
        None => None,
    }
}

/// The value of a reply that may be absent.
pub open spec fn reply_view(reply: Option<Reply>) -> Option<ReplyView> {
    match reply {
        Some(r) => Some(r@),
        None => None,
    }
}

/// The envelope sent where a reply cannot be written as JSON.
pub open spec fn unwritable() -> Seq<char> {
    "{\"status\":\"error\",\"detail\":\"reply could not be encoded\"}"@
}

/// A success around the JSON text of its payload.
pub open spec fn ok_envelope(written: Option<Seq<char>>) -> Seq<char> {
    match written {
        Some(json) => "{\"status\":\"ok\",\"data\":"@ + json + "}"@,
        None => unwritable(),
    }
}

/// A failure around the JSON text of its detail.
pub open spec fn error_envelope(written: Option<Seq<char>>) -> Seq<char> {
    match written {
        Some(json) => "{\"status\":\"error\",\"detail\":"@ + json + "}"@,
        None => unwritable(),
    }
}

/// The JSON text of a payload: the string `ok`, an array of strings, or `true`
/// or `false`.
pub open spec fn reply_json(reply: ReplyView) -> Option<Seq<char>> {
    match reply {
        ReplyView::Done => Some("\"ok\""@),
        ReplyView::Friends(friends) => json_of_texts(friends),
        ReplyView::Flag(flag) => Some(if flag { "true"@ } else { "false"@ }),
    }
}

/// The envelope of a response, as written on the wire.
pub open spec fn envelope_of(response: ResponseView) -> Seq<char> {
    match response {
        ResponseView::Success { data } => ok_envelope(reply_json(data)),
        ResponseView::Failure { detail } => error_envelope(json_of_text(detail)),
    }
}

/// The payload that a raw value spells, given what it reads as: a flag where
/// it is `true` or `false`, else the acknowledgement where it is the string
/// `ok`, else the list of strings. Any other string is no payload.
pub open spec fn reply_of(
    raw: Seq<char>,
    as_text: Option<Seq<char>>,
    as_texts: Option<Option<Seq<Seq<char>>>>,
) -> Option<ReplyView> {
    if raw == "true"@ {
        Some(ReplyView::Flag(true))
    } else if raw == "false"@ {
        Some(ReplyView::Flag(false))
    } else {
        match as_text {
            Some(text) => if text == "ok"@ {
                Some(ReplyView::Done)
            } else {
                None
            },
            None => match as_texts {
                Some(Some(friends)) => Some(ReplyView::Friends(friends)),
                _ => None,
            },
        }
    }
}

/// The response that a status and what stands beside it spell, if any.
pub open spec fn response_of(
    status: Option<Seq<char>>,
    data: Option<ReplyView>,
    detail: Option<Seq<char>>,
) -> Option<ResponseView> {
    match status {
        Some(s) => if s == "ok"@ {
            match data {
                Some(d) => Some(ResponseView::Success { data: d }),
                None => None,
            }
        } else if s == "error"@ {
            match detail {
                Some(d) => Some(ResponseView::Failure { detail: d }),
                None => None,
            }
        } else {
            None
        },
        None => None,
    }
}

/// The payload in the field `data`, if the field is there and spells one.
pub open spec fn data_field(fields: Seq<(Seq<char>, Seq<char>)>) -> Option<ReplyView> {
    match field(fields, "data"@) {
        Some(raw) => reply_of(raw, text_of_json(raw), texts_of_json(raw)),
        None => None,
    }
}

/// The response that the fields of an object spell, if any.
pub open spec fn response_of_fields(fields: Seq<(Seq<char>, Seq<char>)>) -> Option<ResponseView> {
    response_of(text_field(fields, "status"@), data_field(fields), text_field(fields, "detail"@))
}

/// The response that an envelope spells, if any.
pub open spec fn response_of_envelope(envelope: Seq<char>) -> Option<ResponseView> {
    match fields_of_json(envelope) {
        Some(fields) => response_of_fields(fields),
        None => None,
    }
}

/// Closes a success envelope around the JSON text of its payload; where there
/// is no text, the envelope says that the reply could not be encoded.
pub fn seal_ok(written: Option<String>) -> (envelope: String)
    ensures
        envelope@ == ok_envelope(view_of(written)),
{
    match written {
        Some(json) => {
            let mut envelope = String::from_str("{\"status\":\"ok\",\"data\":");
            envelope.append(json.as_str());
            envelope.append("}");
            envelope
        },
        None => String::from_str("{\"status\":\"error\",\"detail\":\"reply could not be encoded\"}"),
    }
}

/// Closes a failure envelope around the JSON text of its detail; where there
/// is no text, the envelope says that the reply could not be encoded.
pub fn seal_error(written: Option<String>) -> (envelope: String)
    ensures
        envelope@ == error_envelope(view_of(written)),
{
    match written {
        Some(json) => {
            let mut envelope = String::from_str("{\"status\":\"error\",\"detail\":");
            envelope.append(json.as_str());
            envelope.append("}");
            envelope
        },
        None => String::from_str("{\"status\":\"error\",\"detail\":\"reply could not be encoded\"}"),
    }
}

impl Reply {
    /// Writes the payload as JSON.
    pub fn encode(&self) -> (json: Option<String>)
        ensures
            view_of(json) == reply_json(self@),
    {
        match self {
            Reply::Done => Some(String::from_str("\"ok\"")),
            Reply::Friends(friends) => write_texts(friends),
            Reply::Flag(flag) => Some(String::from_str(if *flag { "true" } else { "false" })),
        }
    }

    /// Picks the payload that a raw value spells, from the value and what it
    /// reads as.
    pub fn from_parts(raw: &str, as_text: Option<String>, as_texts: Option<Option<Vec<String>>>) -> (reply: Option<Reply>)
        ensures
            reply_view(reply) == reply_of(raw@, view_of(as_text), views_of(as_texts)),
    {
        if same_text(raw, "true") {
            Some(Reply::Flag(true))
        } else if same_text(raw, "false") {
            Some(Reply::Flag(false))
        } else {
            match as_text {
                Some(text) => if same_text(text.as_str(), "ok") {
                    Some(Reply::Done)
                } else {
                    None
                },
                None => match as_texts {
                    Some(Some(friends)) => Some(Reply::Friends(friends)),
                    _ => None,
                },
            }
        }
    }
}

impl Response {
    /// Writes the envelope that carries this response.
    pub fn encode(&self) -> (envelope: String)
        ensures
            envelope@ == envelope_of(self@),
    {
        match self {
            Response::Success { data } => seal_ok(data.encode()),
            Response::Failure { detail } => seal_error(write_text(detail.as_str())),
        }
    }

    /// Puts a response together from a status and what stands beside it.
    /// `None` where the status is unknown or what it asks for is missing.
    pub fn from_parts(status: Option<String>, data: Option<Reply>, detail: Option<String>) -> (response: Option<Response>)
        ensures
            response_view(response) == response_of(view_of(status), reply_view(data), view_of(detail)),
    {
        match status {
            Some(s) => if same_text(s.as_str(), "ok") {
                match data {
                    Some(d) => Some(Response::Success { data: d }),
                    None => None,
                }
            } else if same_text(s.as_str(), "error") {
                match detail {
                    Some(d) => Some(Response::Failure { detail: d }),
                    None => None,
                }
            } else {
                None
            },
            None => None,
        }
    }

    /// Reads a response from the fields of a JSON object.
    pub fn from_fields(fields: &Vec<(String, String)>) -> (response: Option<Response>)
        ensures
            response_view(response) == response_of_fields(fields_seq(fields@)),
    {
        let data = match find_field(fields, "data") {
            Some(raw) => Reply::from_parts(raw.as_str(), read_text(raw.as_str()), read_texts(raw.as_str())),
            None => None,
        };
        Response::from_parts(find_text(fields, "status"), data, find_text(fields, "detail"))
    }

    /// Reads a response from an envelope. Anything that is no JSON object or
    /// has no known `status` with what belongs to it is refused.
    pub fn decode(envelope: &str) -> (response: Option<Response>)
        ensures
            response_view(response) == response_of_envelope(envelope@),
    {
        match read_fields(envelope) {
            Some(fields) => Response::from_fields(&fields),
            None => None,
        }
    }
}

} // verus!
