//! The encodings in which lists of requests leave the program, and the way back
//! in for the JSON one.

use crate::content::ContentType;
use crate::json::{
    json_as_text, json_field, json_insert, json_is_null, json_items, json_list, json_model,
    json_null, json_object, json_read, json_text, json_written, models, read_json, write_json,
    JsonView,
};
use crate::method::Method;
use crate::notification::{Message, Notification, NotificationKind};
use crate::request::{Request, RequestView};
use crate::store::templates_of;
use crate::text::{join2, join3};
use crate::traits::{pair_line, ToStringForeign};
use vstd::prelude::*;
use vstd::string::StringExecFns;

verus! {

/// Which list an export is taken from.
#[allow(clippy::upper_case_acronyms)]
#[derive(Clone, Copy, Debug, PartialEq, Eq, Structural)]
pub enum RequestSourceType {
    HISTORY,
    SAVED,
}

impl RequestSourceType {
    /// The stem of the file name that is proposed for an export of the list.
    pub open spec fn stem(self) -> Seq<char> {
        match self {
            RequestSourceType::HISTORY => "reqwestur_history"@,
            RequestSourceType::SAVED => "reqwestur_saved_requests"@,
        }
    }

    /// Writes [`RequestSourceType::stem`].
    pub fn to_string(&self) -> (stem: String)
        ensures
            stem@ == self.stem(),
    {
        match self {
            RequestSourceType::HISTORY => String::from_str("reqwestur_history"),
            RequestSourceType::SAVED => String::from_str("reqwestur_saved_requests"),
        }
    }
}

/// The encoding of an export.
#[allow(clippy::upper_case_acronyms)]
#[derive(Clone, Copy, Debug, PartialEq, Eq, Structural)]
pub enum ExportType {
    JSON,
    HTTP,
}

impl ExportType {
    /// The extension of the files of the encoding.
    pub open spec fn extension(self) -> Seq<char> {
        match self {
            ExportType::JSON => "json"@,
            ExportType::HTTP => "http"@,
        }
    }

    /// Writes [`ExportType::extension`].
    pub fn to_string(&self) -> (extension: String)
        ensures
            extension@ == self.extension(),
    {
        match self {
            ExportType::JSON => String::from_str("json"),
            ExportType::HTTP => String::from_str("http"),
        }
    }

    /// All encodings, in the order in which they are offered.
    pub fn values() -> (all: Vec<Self>)
        ensures
            all@ == seq![ExportType::HTTP, ExportType::JSON],
    {
        let mut all: Vec<ExportType> = Vec::new();
        all.push(ExportType::HTTP);
        all.push(ExportType::JSON);
        all
    }
}

/// The file name that is proposed for an export: the stem of the list, a dot, and
/// the extension of the encoding.
pub fn proposed_file_name(source_type: RequestSourceType, export_type: ExportType) -> (name: String)
    ensures
        name@ == source_type.stem() + "."@ + export_type.extension(),
{
    let stem = source_type.to_string();
    let extension = export_type.to_string();
    join3(stem.as_str(), ".", extension.as_str())
}

/// A list of pairs as JSON: a list of lists of two strings.
pub open spec fn pairs_json(pairs: Seq<(Seq<char>, Seq<char>)>) -> JsonView {
    JsonView::List(
        Seq::new(
            pairs.len(),
            |i: int| JsonView::List(seq![JsonView::Text(pairs[i].0), JsonView::Text(pairs[i].1)]),
        ),
    )
}

/// A free-text body as JSON: a string, or null where there is none.
pub open spec fn body_json(body: Option<Seq<char>>) -> JsonView {
    match body {
        Some(text) => JsonView::Text(text),
        None => JsonView::Null,
    }
}

/// A request as JSON: an object of what was composed.
pub open spec fn request_json(request: RequestView) -> JsonView {
    JsonView::Object(
        Map::<Seq<char>, JsonView>::empty().insert(
            "body"@,
            body_json(request.body),
        ).insert("contentType"@, JsonView::Text(request.content_type.name())).insert(
            "headers"@,
            pairs_json(request.headers),
        ).insert("method"@, JsonView::Text(request.method.label())).insert(
            "params"@,
            pairs_json(request.params),
        ).insert("uri"@, JsonView::Text(request.address.uri)),
    )
}

/// A list of requests as JSON: the list of its requests.
pub open spec fn requests_json(requests: Seq<RequestView>) -> JsonView {
    JsonView::List(Seq::new(requests.len(), |i: int| request_json(requests[i])))
}

/// Whether a JSON value is a pair of two strings.
pub open spec fn is_json_pair(value: JsonView) -> bool {
    value matches JsonView::List(items) && items.len() == 2 && items[0] is Text && items[1] is Text
}

/// The pair that a JSON value holds, where [`is_json_pair`] holds.
pub open spec fn json_pair(value: JsonView) -> (Seq<char>, Seq<char>) {
    (value->List_0[0]->Text_0, value->List_0[1]->Text_0)
}

/// The list of pairs that a JSON value holds, if it is a list of pairs of
/// strings.
pub open spec fn json_pairs(value: JsonView) -> Option<Seq<(Seq<char>, Seq<char>)>> {
    match value {
        JsonView::List(items) => if forall|i: int|
            0 <= i < items.len() ==> is_json_pair(#[trigger] items[i]) {
            Some(Seq::new(items.len(), |i: int| json_pair(items[i])))
        } else {
            None
        },
        _ => None,
    }
}

/// The free-text body that a JSON value holds, if it is a string or null.
pub open spec fn json_body(value: JsonView) -> Option<Option<Seq<char>>> {
    match value {
        JsonView::Text(text) => Some(Some(text)),
        JsonView::Null => Some(None),
        _ => None,
    }
}

/// The text under a key of a JSON object, if the value is an object and holds a
/// string there.
pub open spec fn json_text_at(value: JsonView, key: Seq<char>) -> Option<Seq<char>> {
    match value {
        JsonView::Object(fields) => if fields.dom().contains(key) {
            match fields[key] {
                JsonView::Text(text) => Some(text),
                _ => None,
            }
        } else {
            None
        },
        _ => None,
    }
}

/// The value under a key of a JSON object, if the value is an object with that
/// key.
pub open spec fn json_at(value: JsonView, key: Seq<char>) -> Option<JsonView> {
    match value {
        JsonView::Object(fields) => if fields.dom().contains(key) {
            Some(fields[key])
        } else {
            None
        },
        _ => None,
    }
}

/// The method named under `method`, if there is one.
pub open spec fn json_method(value: JsonView) -> Option<Method> {
    match json_text_at(value, "method"@) {
        Some(name) => Method::named(name),
        None => None,
    }
}

/// The encoding named under `contentType`, if there is one.
pub open spec fn json_content_type(value: JsonView) -> Option<ContentType> {
    match json_text_at(value, "contentType"@) {
        Some(name) => ContentType::named(name),
        None => None,
    }
}

/// The pairs under a key, if there are some.
pub open spec fn json_pairs_at(value: JsonView, key: Seq<char>) -> Option<
    Seq<(Seq<char>, Seq<char>)>,
> {
    match json_at(value, key) {
        Some(list) => json_pairs(list),
        None => None,
    }
}

/// The body under `body`, if the key is there with a string or null.
pub open spec fn json_body_at(value: JsonView) -> Option<Option<Seq<char>>> {
    match json_at(value, "body"@) {
        Some(body) => json_body(body),
        None => None,
    }
}

/// The request that a JSON value holds: the value is an object that names a
/// method and an encoding, and holds an address, headers, fields and a body in
/// their shapes. Keys beyond these six are passed over.
pub open spec fn json_request(value: JsonView) -> Option<RequestView> {
    if json_method(value) is Some && json_content_type(value) is Some && json_text_at(
        value,
        "uri"@,
    ) is Some && json_pairs_at(value, "headers"@) is Some && json_body_at(value) is Some
        && json_pairs_at(value, "params"@) is Some {
        Some(
            RequestView::composed(
                json_method(value)->0,
                json_text_at(value, "uri"@)->0,
                json_pairs_at(value, "headers"@)->0,
                json_content_type(value)->0,
                json_body_at(value)->0,
                json_pairs_at(value, "params"@)->0,
            ),
        )
    } else {
        None
    }
}

/// The requests that a JSON value holds, if it is a list of requests.
pub open spec fn json_requests(value: JsonView) -> Option<Seq<RequestView>> {
    match value {
        JsonView::List(items) => if forall|i: int|
            0 <= i < items.len() ==> json_request(#[trigger] items[i]) is Some {
            Some(Seq::new(items.len(), |i: int| json_request(items[i])->0))
        } else {
            None
        },
        _ => None,
    }
}

/// A pair as a JSON list of two strings.
fn pair_to_json(pair: &(String, String)) -> (value: serde_json::Value)
    ensures
        json_model(value) == JsonView::List(seq![JsonView::Text(pair.0@), JsonView::Text(pair.1@)]),
{
    let mut items: Vec<serde_json::Value> = Vec::new();
    items.push(json_text(pair.0.as_str()));
    items.push(json_text(pair.1.as_str()));
    assert(models(items@) =~= seq![JsonView::Text(pair.0@), JsonView::Text(pair.1@)]);
    json_list(items)
}

/// A list of pairs as JSON, see [`pairs_json`].
fn pairs_to_json(pairs: &Vec<(String, String)>) -> (value: serde_json::Value)
    ensures
        json_model(value) == pairs_json(pairs.deep_view()),
{
    let mut items: Vec<serde_json::Value> = Vec::new();
    let mut i: usize = 0;
    while i < pairs.len()
        invariant
            i <= pairs.len(),
            items.len() == i,
            forall|j: int|
                0 <= j < i ==> json_model(#[trigger] items@[j]) == JsonView::List(
                    seq![JsonView::Text(pairs@[j].0@), JsonView::Text(pairs@[j].1@)],
                ),
        decreases pairs.len() - i,
    {
        items.push(pair_to_json(&pairs[i]));
        i += 1;
    }
    assert(models(items@) =~= pairs_json(pairs.deep_view())->List_0);
    json_list(items)
}

/// A request as JSON, see [`request_json`].
pub fn request_to_json(request: &Request) -> (value: serde_json::Value)
    ensures
        json_model(value) == request_json(request@),
{
    let body = match request.body() {
        Some(text) => json_text(text.as_str()),
        None => json_null(),
    };
    let content_type = request.content_type().to_name();
    let method = request.method().to_string();
    let value = json_object();
    let value = json_insert(value, "body", body);
    let value = json_insert(value, "contentType", json_text(content_type.as_str()));
    let value = json_insert(value, "headers", pairs_to_json(request.headers()));
    let value = json_insert(value, "method", json_text(method.as_str()));
    let value = json_insert(value, "params", pairs_to_json(request.params()));
    let value = json_insert(value, "uri", json_text(request.uri()));
    value
}

/// A list of requests as JSON, see [`requests_json`].
pub fn requests_to_json(requests: &Vec<Request>) -> (value: serde_json::Value)
    ensures
        json_model(value) == requests_json(requests.deep_view()),
{
    let mut items: Vec<serde_json::Value> = Vec::new();
    let mut i: usize = 0;
    while i < requests.len()
        invariant
            i <= requests.len(),
            items.len() == i,
            forall|j: int|
                0 <= j < i ==> json_model(#[trigger] items@[j]) == request_json(requests@[j]@),
        decreases requests.len() - i,
    {
        items.push(request_to_json(&requests[i]));
        i += 1;
    }
    assert(models(items@) =~= requests_json(requests.deep_view())->List_0);
    json_list(items)
}

/// The pair that a JSON value holds, see [`is_json_pair`].
fn pair_from_json(value: &serde_json::Value) -> (pair: Option<(String, String)>)
    ensures
        match pair {
            Some(found) => is_json_pair(json_model(*value)) && found.deep_view() == json_pair(
                json_model(*value),
            ),
            None => !is_json_pair(json_model(*value)),
        },
{
    match json_items(value) {
        Some(items) => {
            if items.len() == 2 {
                match json_as_text(&items[0]) {
                    Some(name) => match json_as_text(&items[1]) {
                        Some(text) => Some((name, text)),
                        None => None,
                    },
                    None => None,
                }
            } else {
                None
            }
        },
        None => None,
    }
}

/// The pairs that a JSON value holds, see [`json_pairs`].
fn pairs_from_json(value: &serde_json::Value) -> (pairs: Option<Vec<(String, String)>>)
    ensures
        pairs.deep_view() == json_pairs(json_model(*value)),
{
    match json_items(value) {
        Some(items) => {
            let ghost list = models(items@);
            let mut pairs: Vec<(String, String)> = Vec::new();
            let mut i: usize = 0;
            while i < items.len()
                invariant
                    i <= items.len(),
                    pairs.len() == i,
                    list == models(items@),
                    json_model(*value) == JsonView::List(list),
                    forall|j: int| 0 <= j < i ==> is_json_pair(#[trigger] list[j]),
                    forall|j: int| 0 <= j < i ==> pairs@[j].deep_view() == json_pair(list[j]),
                decreases items.len() - i,
            {
                match pair_from_json(&items[i]) {
                    Some(pair) => {
                        pairs.push(pair);
                    },
                    None => {
                        assert(!is_json_pair(list[i as int]));
                        return None;
                    },
                }
                i += 1;
            }
            Some(pairs)
        },
        None => None,
    }
}

/// The text under a key, see [`json_text_at`].
fn text_from_json(value: &serde_json::Value, key: &str) -> (text: Option<String>)
    ensures
        text.deep_view() == json_text_at(json_model(*value), key@),
{
    match json_field(value, key) {
        Some(field) => json_as_text(&field),
        None => None,
    }
}

/// The pairs under a key, see [`json_pairs_at`].
fn pairs_at_from_json(value: &serde_json::Value, key: &str) -> (pairs: Option<
    Vec<(String, String)>,
>)
    ensures
        pairs.deep_view() == json_pairs_at(json_model(*value), key@),
{
    match json_field(value, key) {
        Some(field) => pairs_from_json(&field),
        None => None,
    }
}

/// The body under `body`, see [`json_body_at`].
fn body_from_json(value: &serde_json::Value) -> (body: Option<Option<String>>)
    ensures
        body.deep_view() == json_body_at(json_model(*value)),
{
    match json_field(value, "body") {
        Some(field) => {
            if json_is_null(&field) {
                Some(None)
            } else {
                match json_as_text(&field) {
                    Some(text) => Some(Some(text)),
                    None => None,
                }
            }
        },
        None => None,
    }
}

/// The request that a JSON value holds, see [`json_request`].
pub fn request_from_json(value: &serde_json::Value) -> (request: Option<Request>)
    ensures
        request.deep_view() == json_request(json_model(*value)),
{
    let method = match text_from_json(value, "method") {
        Some(name) => Method::from_name(name.as_str()),
        None => None,
    };
    let content_type = match text_from_json(value, "contentType") {
        Some(name) => ContentType::from_name(name.as_str()),
        None => None,
    };
    let uri = text_from_json(value, "uri");
    let headers = pairs_at_from_json(value, "headers");
    let body = body_from_json(value);
    let params = pairs_at_from_json(value, "params");
    match (method, content_type, uri, headers, body, params) {
        (Some(method), Some(content_type), Some(uri), Some(headers), Some(body), Some(params)) => {
            Some(Request::compose(method, uri.as_str(), headers, content_type, body, params))
        },
        _ => None,
    }
}

/// The requests that a JSON value holds, see [`json_requests`].
pub fn requests_from_json(value: &serde_json::Value) -> (requests: Option<Vec<Request>>)
    ensures
        requests.deep_view() == json_requests(json_model(*value)),
{
    match json_items(value) {
        Some(items) => {
            let ghost list = models(items@);
            let mut requests: Vec<Request> = Vec::new();
            let mut i: usize = 0;
            while i < items.len()
                invariant
                    i <= items.len(),
                    requests.len() == i,
                    list == models(items@),
                    json_model(*value) == JsonView::List(list),
                    forall|j: int| 0 <= j < i ==> json_request(#[trigger] list[j]) is Some,
                    forall|j: int| 0 <= j < i ==> requests@[j]@ == json_request(list[j])->0,
                decreases items.len() - i,
            {
                match request_from_json(&items[i]) {
                    Some(request) => {
                        requests.push(request);
                    },
                    None => {
                        assert(json_request(list[i as int]) is None);
                        return None;
                    },
                }
                i += 1;
            }
            Some(requests)
        },
        None => None,
    }
}

/// The header lines of the first `count` headers: each header as `name=value`,
/// each line closed by a line feed.
pub open spec fn header_lines(headers: Seq<(Seq<char>, Seq<char>)>, count: nat) -> Seq<char>
    decreases count,
{
    if count == 0 {
        Seq::empty()
    } else {
        header_lines(headers, (count - 1) as nat) + pair_line(headers[count - 1]) + "\n"@
    }
}

/// The lines of the first `count` form fields: each field as `name=value`, every
/// field but the first on a line of its own that begins with `&`.
pub open spec fn param_lines(params: Seq<(Seq<char>, Seq<char>)>, count: nat) -> Seq<char>
    decreases count,
{
    if count == 0 {
        Seq::empty()
    } else if count == 1 {
        pair_line(params[0])
    } else {
        param_lines(params, (count - 1) as nat) + "\n&"@ + pair_line(params[count - 1])
    }
}

/// The part of a record that holds the form fields: nothing without fields, else
/// their lines and a line feed.
pub open spec fn params_part(params: Seq<(Seq<char>, Seq<char>)>) -> Seq<char> {
    if params.len() == 0 {
        Seq::empty()
    } else {
        param_lines(params, params.len()) + "\n"@
    }
}

/// The part of a record that holds the body: nothing without a body, else the
/// body and a line feed.
pub open spec fn body_part(body: Option<Seq<char>>) -> Seq<char> {
    match body {
        Some(text) => text + "\n"@,
        None => Seq::empty(),
    }
}

/// A request as a record of HTTP text: the method and the address on the first
/// line, then the headers, the form fields and the body.
pub open spec fn http_record(request: RequestView) -> Seq<char> {
    request.method.label() + " "@ + request.address.uri + "\n"@ + header_lines(
        request.headers,
        request.headers.len(),
    ) + params_part(request.params) + body_part(request.body)
}

/// The first `count` requests as HTTP text: their records, with a line of three
/// hashes and an empty line between two records.
pub open spec fn http_records(requests: Seq<RequestView>, count: nat) -> Seq<char>
    decreases count,
{
    if count == 0 {
        Seq::empty()
    } else if count == 1 {
        http_record(requests[0])
    } else {
        http_records(requests, (count - 1) as nat) + "\n###\n\n"@ + http_record(
            requests[count - 1],
        )
    }
}

/// Writes [`header_lines`] for all headers.
fn header_text(headers: &Vec<(String, String)>) -> (text: String)
    ensures
        text@ == header_lines(headers.deep_view(), headers.len() as nat),
{
    let mut text = String::new();
    let mut i: usize = 0;
    while i < headers.len()
        invariant
            i <= headers.len(),
            text@ == header_lines(headers.deep_view(), i as nat),
        decreases headers.len() - i,
    {
        let line = headers[i].to_string();
        text.append(line.as_str());
        text.append("\n");
        i += 1;
    }
    text
}

/// Writes [`params_part`].
fn params_text(params: &Vec<(String, String)>) -> (text: String)
    ensures
        text@ == params_part(params.deep_view()),
{
    let mut text = String::new();
    if params.len() == 0 {
        return text;
    }
    let mut i: usize = 0;
    while i < params.len()
        invariant
            i <= params.len(),
            text@ == param_lines(params.deep_view(), i as nat),
        decreases params.len() - i,
    {
        let line = params[i].to_string();
        if i > 0 {
            text.append("\n&");
        }
        text.append(line.as_str());
        i += 1;
    }
    text.append("\n");
    text
}

/// Writes [`http_record`].
pub fn http_request_text(request: &Request) -> (text: String)
    ensures
        text@ == http_record(request@),
{
    let method = request.method().to_string();
    let mut text = join3(method.as_str(), " ", request.uri());
    text.append("\n");
    let headers = header_text(request.headers());
    text.append(headers.as_str());
    let params = params_text(request.params());
    text.append(params.as_str());
    match request.body() {
        Some(body) => {
            text.append(body.as_str());
            text.append("\n");
        },
        None => {},
    }
    text
}

/// Writes [`http_records`] for all requests.
pub fn http_text(requests: &Vec<Request>) -> (text: String)
    ensures
        text@ == http_records(requests.deep_view(), requests.len() as nat),
{
    let mut text = String::new();
    let mut i: usize = 0;
    while i < requests.len()
        invariant
            i <= requests.len(),
            text@ == http_records(requests.deep_view(), i as nat),
        decreases requests.len() - i,
    {
        let record = http_request_text(&requests[i]);
        if i > 0 {
            text.append("\n###\n\n");
        }
        text.append(record.as_str());
        i += 1;
    }
    text
}

/// What is shown where a list of requests could not be written as JSON.
pub open spec fn write_refused(reason: Seq<char>) -> Message {
    Message { kind: NotificationKind::ERROR, text: "Could not write JSON - "@ + reason }
}

/// What is shown where a text that was to be imported is no JSON.
pub open spec fn no_json() -> Message {
    Message { kind: NotificationKind::ERROR, text: "The file does not hold JSON."@ }
}

/// What is shown where the JSON that was to be imported is no list of requests.
pub open spec fn no_requests() -> Message {
    Message { kind: NotificationKind::ERROR, text: "The file does not hold exported requests."@ }
}

/// The text of an export: the requests in the encoding, or why they could not be
/// written.
pub open spec fn exported(requests: Seq<RequestView>, export_type: ExportType) -> Result<
    Seq<char>,
    Message,
> {
    match export_type {
        ExportType::JSON => match json_written(requests_json(requests)) {
            Ok(text) => Ok(text),
            Err(reason) => Err(write_refused(reason)),
        },
        ExportType::HTTP => Ok(http_records(requests, requests.len())),
    }
}

/// What an import finds in a JSON value that was read, if one was read.
pub open spec fn found_in(value: Option<JsonView>) -> Result<Seq<RequestView>, Message> {
    match value {
        Some(value) => match json_requests(value) {
            Some(requests) => Ok(requests),
            None => Err(no_requests()),
        },
        None => Err(no_json()),
    }
}

/// The requests of an import: what the text holds, or why it holds none.
pub open spec fn imported(text: Seq<char>) -> Result<Seq<RequestView>, Message> {
    found_in(json_read(text))
}

/// Whether an executable result is the one that a model says.
pub open spec fn export_matches(
    text: Result<String, Notification>,
    model: Result<Seq<char>, Message>,
) -> bool {
    match model {
        Ok(words) => text matches Ok(written) && written@ == words,
        Err(message) => text matches Err(shown) && shown@ == Some(message),
    }
}

/// Whether an executable result is the one that a model says.
pub open spec fn import_matches(
    requests: Result<Vec<Request>, Notification>,
    model: Result<Seq<RequestView>, Message>,
) -> bool {
    match model {
        Ok(list) => requests matches Ok(read) && read.deep_view() == list,
        Err(message) => requests matches Err(shown) && shown@ == Some(message),
    }
}

/// The model of a [`ReqwesturIO`].
pub struct ReqwesturIOView {
    pub requests: Seq<RequestView>,
    pub file_path: Seq<char>,
    pub export_type: ExportType,
}

/// An export that is ready to be written: the requests, the file that was chosen
/// for them, and the encoding.
pub struct ReqwesturIO {
    requests: Vec<Request>,
    file_path: String,
    export_type: ExportType,
}

impl View for ReqwesturIO {
    type V = ReqwesturIOView;

    closed spec fn view(&self) -> ReqwesturIOView {
        ReqwesturIOView {
            requests: self.requests.deep_view(),
            file_path: self.file_path@,
            export_type: self.export_type,
        }
    }
}

impl ReqwesturIO {
    /// An export of `requests` to the file that was chosen; none where no file
    /// was chosen.
    pub fn new(
        requests: Vec<Request>,
        file_path: Option<String>,
        export_type: ExportType,
    ) -> (export: Option<Self>)
        ensures
            match file_path {
                Some(chosen) => export matches Some(ready) && ready@ == (ReqwesturIOView {
                    requests: requests.deep_view(),
                    file_path: chosen@,
                    export_type,
                }),
                None => export is None,
            },
    {
        match file_path {
            Some(file_path) => Some(ReqwesturIO { requests, file_path, export_type }),
            None => None,
        }
    }

    /// The file to write.
    pub fn file_path(&self) -> (file_path: &str)
        ensures
            file_path@ == self@.file_path,
    {
        self.file_path.as_str()
    }

    /// The encoding.
    pub fn export_type(&self) -> (export_type: ExportType)
        ensures
            export_type == self@.export_type,
    {
        self.export_type
    }

    /// The requests.
    pub fn requests(&self) -> (requests: &Vec<Request>)
        ensures
            requests.deep_view() == self@.requests,
    {
        &self.requests
    }

    /// The text to write to the file, see [`exported`].
    pub fn export(&self) -> (text: Result<String, Notification>)
        ensures
            export_matches(text, exported(self@.requests, self@.export_type)),
    {
        match self.export_type {
            ExportType::JSON => {
                let value = requests_to_json(&self.requests);
                json_export(write_json(&value))
            },
            ExportType::HTTP => Ok(http_text(&self.requests)),
        }
    }

    /// Whether `text`, imported, gives the templates of the requests of this
    /// export: whether it is an export of them in the JSON encoding that lost
    /// nothing of what was composed.
    pub fn reads_back(&self, text: &str) -> (same: bool)
        ensures
            same == (imported(text@) == Ok::<Seq<RequestView>, Message>(
                templates_of(self@.requests),
            )),
    {
        proof {
            if imported(text@) is Ok {
                read_requests_are_templates(json_read(text@)->0);
            }
        }
        match ReqwesturIO::import(text) {
            Ok(read) => same_compositions(&read, &self.requests),
            Err(_) => false,
        }
    }

    /// The requests that a text in the JSON encoding holds, see [`imported`].
    pub fn import(text: &str) -> (requests: Result<Vec<Request>, Notification>)
        ensures
            import_matches(requests, imported(text@)),
    {
        let value = read_json(text);
        import_found(value)
    }
}

/// Whether two lists of requests were composed alike, request by request.
pub fn same_compositions(left: &Vec<Request>, right: &Vec<Request>) -> (same: bool)
    ensures
        same == (templates_of(left.deep_view()) == templates_of(right.deep_view())),
{
    if left.len() != right.len() {
        assert(templates_of(left.deep_view()).len() != templates_of(right.deep_view()).len());
        return false;
    }
    let mut i: usize = 0;
    while i < left.len()
        invariant
            i <= left.len(),
            left.len() == right.len(),
            forall|j: int| 0 <= j < i ==> left@[j]@.template() == right@[j]@.template(),
        decreases left.len() - i,
    {
        if !left[i].same_composition(&right[i]) {
            assert(templates_of(left.deep_view())[i as int] != templates_of(
                right.deep_view(),
            )[i as int]);
            return false;
        }
        i += 1;
    }
    assert(templates_of(left.deep_view()) =~= templates_of(right.deep_view()));
    true
}

/// The outcome of an export as JSON, given what writing the JSON gave.
pub fn json_export(written: Result<String, String>) -> (text: Result<String, Notification>)
    ensures
        match written {
            Ok(words) => text matches Ok(kept) && kept@ == words@,
            Err(reason) => text matches Err(shown) && shown@ == Some(write_refused(reason@)),
        },
{
    match written {
        Ok(words) => Ok(words),
        Err(reason) => {
            let words = join2("Could not write JSON - ", reason.as_str());
            Err(Notification::new(words.as_str(), NotificationKind::ERROR))
        },
    }
}

/// The outcome of an import, given the JSON value that was read, if one was
/// read; see [`found_in`].
pub fn import_found(value: Option<serde_json::Value>) -> (requests: Result<
    Vec<Request>,
    Notification,
>)
    ensures
        import_matches(
            requests,
            found_in(
                match value {
                    Some(read) => Some(json_model(read)),
                    None => None,
                },
            ),
        ),
{
    match value {
        Some(read) => match requests_from_json(&read) {
            Some(requests) => Ok(requests),
            None => Err(
                Notification::new(
                    "The file does not hold exported requests.",
                    NotificationKind::ERROR,
                ),
            ),
        },
        None => Err(Notification::new("The file does not hold JSON.", NotificationKind::ERROR)),
    }
}

/// Requests that were read from JSON are templates: they hold what was composed
/// and nothing else.
pub proof fn read_requests_are_templates(value: JsonView)
    ensures
        json_requests(value) matches Some(requests) ==> templates_of(requests) == requests,
{
}

/// The six keys of an exported request are six different texts.
proof fn keys_differ()
    ensures
        "body"@ != "contentType"@,
        "body"@ != "headers"@,
        "body"@ != "method"@,
        "body"@ != "params"@,
        "body"@ != "uri"@,
        "contentType"@ != "headers"@,
        "contentType"@ != "method"@,
        "contentType"@ != "params"@,
        "contentType"@ != "uri"@,
        "headers"@ != "method"@,
        "headers"@ != "params"@,
        "headers"@ != "uri"@,
        "method"@ != "params"@,
        "method"@ != "uri"@,
        "params"@ != "uri"@,
{
    reveal_strlit("body");
    reveal_strlit("contentType");
    reveal_strlit("headers");
    reveal_strlit("method");
    reveal_strlit("params");
    reveal_strlit("uri");
    assert("contentType"@[0] == 'c');
    assert("headers"@[0] == 'h');
    assert("method"@[0] == 'm');
    assert("params"@[0] == 'p');
    assert("uri"@[0] == 'u');
}

/// A list of pairs is read back from its JSON.
pub proof fn pairs_are_read_back(pairs: Seq<(Seq<char>, Seq<char>)>)
    ensures
        json_pairs(pairs_json(pairs)) == Some(pairs),
{
}

/// A valid request is read back from its JSON as its template.
pub proof fn request_is_read_back(request: RequestView)
    requires
        request.valid(),
    ensures
        json_request(request_json(request)) == Some(request.template()),
{
    keys_differ();
    Method::label_is_read_back(request.method);
    ContentType::name_is_read_back(request.content_type);
    pairs_are_read_back(request.headers);
    pairs_are_read_back(request.params);
}

/// Exporting and importing gives back what was composed. The JSON of a list of
/// valid requests holds, read again, the template of each request, in the same
/// order: method, encoding, address, headers, body and fields as they were,
/// whatever response, notification or state the requests had.
pub proof fn export_is_read_back(requests: Seq<RequestView>)
    requires
        forall|i: int| 0 <= i < requests.len() ==> (#[trigger] requests[i]).valid(),
    ensures
        json_requests(requests_json(requests)) == Some(templates_of(requests)),
{
    let items = requests_json(requests)->List_0;
    assert forall|i: int| 0 <= i < items.len() implies json_request(#[trigger] items[i]) == Some(
        requests[i].template(),
    ) by {
        request_is_read_back(requests[i]);
    }
}

/// The same for the texts of [`ReqwesturIO::export`] and
/// [`ReqwesturIO::import`]: where `serde_json` reads from the exported text the
/// value that it wrote, the import of the text gives the templates of the
/// requests.
pub proof fn exported_text_is_read_back(requests: Seq<RequestView>, text: Seq<char>)
    requires
        forall|i: int| 0 <= i < requests.len() ==> (#[trigger] requests[i]).valid(),
        exported(requests, ExportType::JSON) == Ok::<Seq<char>, Message>(text),
        json_read(text) == Some(requests_json(requests)),
    ensures
        imported(text) == Ok::<Seq<RequestView>, Message>(templates_of(requests)),
{
    export_is_read_back(requests);
}

} // verus!
