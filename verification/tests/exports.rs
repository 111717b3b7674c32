use reqwestur::content::ContentType;
use reqwestur::exports::{
    http_request_text, http_text, import_found, json_export, proposed_file_name, request_from_json,
    request_to_json, requests_from_json, requests_to_json, same_compositions, ExportType,
    RequestSourceType, ReqwesturIO,
};
use reqwestur::text::{same_option, same_pairs};
use reqwestur::json::prettify;
use reqwestur::method::Method;
use reqwestur::notification::{Notification, NotificationKind};
use reqwestur::request::{Request, RequestEvent};
use reqwestur::response::Response;

fn pair(name: &str, value: &str) -> (String, String) {
    (name.to_string(), value.to_string())
}

fn composed_fields(request: &Request) -> (Method, ContentType, String, Vec<(String, String)>, Option<String>, Vec<(String, String)>) {
    (
        request.method(),
        request.content_type(),
        request.uri().to_string(),
        request.headers().clone(),
        request.body().clone(),
        request.params().clone(),
    )
}

fn samples() -> Vec<Request> {
    let plain = Request::compose(
        Method::GET,
        "https://example.com/",
        vec![pair("Accept", "*/*")],
        ContentType::EMPTY,
        None,
        Vec::new(),
    );
    let json = Request::compose(
        Method::POST,
        "https://example.com/items?x=1&y=2",
        vec![pair("X-A", "1"), pair("X-A", "2"), pair("", "")],
        ContentType::JSON,
        Some("{\"quote\": \"\\\"\", \"line\": \"a\\nb\"}\n\t\u{1F600} \u{0} \\ end".to_string()),
        vec![pair("kept", "although unused")],
    );
    let form = Request::compose(
        Method::PATCH,
        "not a url",
        Vec::new(),
        ContentType::XWWWFORMURLENCODED,
        None,
        vec![pair("a b", "c&d=e"), pair("\u{e9}", "\u{4e2d}\u{6587}")],
    );
    let multipart = Request::compose(
        Method::PUT,
        "",
        Vec::new(),
        ContentType::MULTIPART,
        Some(String::new()),
        vec![pair("field", "value")],
    );
    let text = Request::compose(
        Method::DELETE,
        "http://localhost:8080/x",
        Vec::new(),
        ContentType::TEXT,
        Some("plain".to_string()),
        Vec::new(),
    );
    let sent = Request::restore(
        text,
        "01/01/2024 12:00",
        Response {
            status: 500,
            reason: "Internal Server Error".to_string(),
            headers: vec![pair("a", "b")],
            cookies: vec!["c".to_string()],
            body: "boom".to_string(),
        },
        Notification::new("Sent successfully.", NotificationKind::INFO),
        RequestEvent::SENT,
    );
    vec![plain, json, form, multipart, sent]
}

#[test]
fn export_types_and_file_names() {
    assert_eq!(ExportType::values(), vec![ExportType::HTTP, ExportType::JSON]);
    assert_eq!(ExportType::JSON.to_string(), "json");
    assert_eq!(ExportType::HTTP.to_string(), "http");
    assert_eq!(RequestSourceType::HISTORY.to_string(), "reqwestur_history");
    assert_eq!(RequestSourceType::SAVED.to_string(), "reqwestur_saved_requests");
    assert_eq!(
        proposed_file_name(RequestSourceType::HISTORY, ExportType::JSON),
        "reqwestur_history.json"
    );
    assert_eq!(
        proposed_file_name(RequestSourceType::SAVED, ExportType::HTTP),
        "reqwestur_saved_requests.http"
    );
}

#[test]
fn an_export_needs_a_file() {
    assert!(ReqwesturIO::new(samples(), None, ExportType::JSON).is_none());
    let export = ReqwesturIO::new(samples(), Some("/tmp/out.json".to_string()), ExportType::JSON)
        .expect("a file was chosen");
    assert_eq!(export.file_path(), "/tmp/out.json");
    assert_eq!(export.export_type(), ExportType::JSON);
    assert_eq!(export.requests().len(), 5);
}

#[test]
fn json_export_of_one_request() {
    let requests = vec![Request::compose(
        Method::POST,
        "https://example.com/",
        vec![pair("Accept", "*/*")],
        ContentType::JSON,
        Some("{}".to_string()),
        Vec::new(),
    )];
    let export = ReqwesturIO::new(requests, Some("out.json".to_string()), ExportType::JSON).unwrap();
    let text = export.export().ok().expect("the requests can be written");
    let expected = "[\n  {\n    \"body\": \"{}\",\n    \"contentType\": \"JSON\",\n    \"headers\": [\n      [\n        \"Accept\",\n        \"*/*\"\n      ]\n    ],\n    \"method\": \"POST\",\n    \"params\": [],\n    \"uri\": \"https://example.com/\"\n  }\n]";
    assert_eq!(text, expected);
}

#[test]
fn json_export_of_no_request() {
    let export = ReqwesturIO::new(Vec::new(), Some("out.json".to_string()), ExportType::JSON).unwrap();
    assert_eq!(export.export().ok(), Some("[]".to_string()));
    assert_eq!(ReqwesturIO::import("[]").ok().map(|requests| requests.len()), Some(0));
}

#[test]
fn exported_json_is_read_back() {
    let requests = samples();
    let export = ReqwesturIO::new(samples(), Some("out.json".to_string()), ExportType::JSON).unwrap();
    let text = export.export().ok().unwrap();
    let read = ReqwesturIO::import(&text).ok().expect("an export can be imported");
    assert_eq!(read.len(), requests.len());
    for (before, after) in requests.iter().zip(read.iter()) {
        assert_eq!(composed_fields(before), composed_fields(after));
        assert_eq!(after.event(), RequestEvent::UNSENT);
        assert_eq!(after.timestamp(), "");
        assert!(!after.notice().is_shown());
        assert_eq!(after.response().status, 0);
        assert!(!after.sendable());
        assert_eq!(
            before.address().notification().message(),
            after.address().notification().message()
        );
    }
}

#[test]
fn exported_values_are_read_back() {
    for request in samples() {
        let value = request_to_json(&request);
        let read = request_from_json(&value).expect("a request is read from its own value");
        assert_eq!(composed_fields(&request), composed_fields(&read));
    }
    let value = requests_to_json(&samples());
    assert_eq!(requests_from_json(&value).map(|requests| requests.len()), Some(5));
}

#[test]
fn import_reads_the_export_shape() {
    let text = r#"[{"uri":"http://h/","method":"DELETE","contentType":"TEXT",
        "headers":[["a","b"]],"params":[["c","d"],["e","f"]],"body":"x","more":[1,true]}]"#;
    let requests = ReqwesturIO::import(text).ok().expect("the shape is that of an export");
    assert_eq!(requests.len(), 1);
    assert_eq!(
        composed_fields(&requests[0]),
        (
            Method::DELETE,
            ContentType::TEXT,
            "http://h/".to_string(),
            vec![pair("a", "b")],
            Some("x".to_string()),
            vec![pair("c", "d"), pair("e", "f")]
        )
    );
}

#[test]
fn import_drops_a_body_under_the_empty_encoding() {
    let text = r#"[{"uri":"http://h/","method":"GET","contentType":"EMPTY","headers":[],"params":[],"body":"x"}]"#;
    let requests = ReqwesturIO::import(text).ok().unwrap();
    assert_eq!(requests[0].body(), &None);
    assert_eq!(requests[0].content_type(), ContentType::EMPTY);
}

#[test]
fn import_refuses_what_is_no_json() {
    for text in ["", "[", "{\"a\":}", "GET http://x"] {
        let problem = ReqwesturIO::import(text).err().expect("the text is no JSON");
        assert_eq!(problem.kind(), Some(NotificationKind::ERROR));
        assert_eq!(problem.message(), Some("The file does not hold JSON."));
    }
    assert_eq!(import_found(None).err().unwrap().message(), Some("The file does not hold JSON."));
}

#[test]
fn import_refuses_other_shapes() {
    let whole = r#"{"uri":"http://h/","method":"GET","contentType":"EMPTY","headers":[],"params":[],"body":null}"#;
    assert!(ReqwesturIO::import(&format!("[{}]", whole)).is_ok());
    let mut wrong = vec![
        whole.to_string(),
        "null".to_string(),
        "\"text\"".to_string(),
        "[1]".to_string(),
        "[[]]".to_string(),
        "[{}]".to_string(),
        format!("[{},3]", whole),
    ];
    for (from, to) in [
        ("\"uri\":\"http://h/\"", "\"uri\":null"),
        ("\"uri\":\"http://h/\",", ""),
        ("\"method\":\"GET\"", "\"method\":\"get\""),
        ("\"method\":\"GET\"", "\"method\":7"),
        ("\"method\":\"GET\",", ""),
        ("\"contentType\":\"EMPTY\"", "\"contentType\":\"empty\""),
        ("\"contentType\":\"EMPTY\",", ""),
        ("\"headers\":[]", "\"headers\":{}"),
        ("\"headers\":[]", "\"headers\":[[\"a\"]]"),
        ("\"headers\":[]", "\"headers\":[[\"a\",\"b\",\"c\"]]"),
        ("\"headers\":[]", "\"headers\":[[\"a\",1]]"),
        ("\"headers\":[]", "\"headers\":[\"a\"]"),
        ("\"headers\":[],", ""),
        ("\"params\":[]", "\"params\":null"),
        ("\"params\":[],", ""),
        ("\"body\":null", "\"body\":false"),
        ("\"body\":null", "\"body\":[]"),
        (",\"body\":null", ""),
    ] {
        assert!(whole.contains(from), "{}", from);
        wrong.push(format!("[{}]", whole.replace(from, to)));
    }
    for text in wrong {
        let problem = ReqwesturIO::import(&text).err().expect(&text);
        assert_eq!(problem.kind(), Some(NotificationKind::ERROR));
        assert_eq!(problem.message(), Some("The file does not hold exported requests."));
    }
}

#[test]
fn a_failure_to_write_json_is_shown() {
    let problem = json_export(Err("Error(\"x\")".to_string())).err().unwrap();
    assert_eq!(problem.kind(), Some(NotificationKind::ERROR));
    assert_eq!(problem.message(), Some("Could not write JSON - Error(\"x\")"));
    assert_eq!(json_export(Ok("[]".to_string())).ok(), Some("[]".to_string()));
}

#[test]
fn http_text_of_one_request() {
    let request = Request::compose(
        Method::POST,
        "https://example.com/form",
        vec![pair("Accept", "*/*"), pair("X-Id", "7")],
        ContentType::TEXT,
        Some("hello".to_string()),
        vec![pair("a", "1"), pair("b", "2"), pair("c", "3")],
    );
    assert_eq!(
        http_request_text(&request),
        "POST https://example.com/form\nAccept=*/*\nX-Id=7\na=1\n&b=2\n&c=3\nhello\n"
    );
    assert_eq!(http_request_text(&Request::default()), "GET \n");
    let one_param = Request::compose(
        Method::GET,
        "http://h",
        Vec::new(),
        ContentType::EMPTY,
        None,
        vec![pair("only", "one")],
    );
    assert_eq!(http_request_text(&one_param), "GET http://h\nonly=one\n");
}

#[test]
fn http_text_separates_records() {
    let first = Request::compose(Method::GET, "http://a", Vec::new(), ContentType::EMPTY, None, Vec::new());
    let second = Request::compose(
        Method::DELETE,
        "http://b",
        vec![pair("h", "v")],
        ContentType::JSON,
        Some("{}".to_string()),
        Vec::new(),
    );
    let third = Request::compose(Method::PUT, "http://c", Vec::new(), ContentType::EMPTY, None, Vec::new());
    assert_eq!(http_text(&Vec::new()), "");
    assert_eq!(http_text(&vec![first.clone()]), "GET http://a\n");
    assert_eq!(
        http_text(&vec![first.clone(), second.clone(), third.clone()]),
        "GET http://a\n\n###\n\nDELETE http://b\nh=v\n{}\n\n###\n\nPUT http://c\n"
    );
    let export = ReqwesturIO::new(vec![first, second], Some("out.http".to_string()), ExportType::HTTP).unwrap();
    assert_eq!(
        export.export().ok(),
        Some("GET http://a\n\n###\n\nDELETE http://b\nh=v\n{}\n".to_string())
    );
}

#[test]
fn prettify_keeps_what_is_no_json() {
    assert_eq!(prettify("<html>".to_string()), ("<html>".to_string(), None));
    assert_eq!(prettify("[1,2]".to_string()), ("[\n  1,\n  2\n]".to_string(), None));
    assert_eq!(prettify("{\"b\":1,\"a\":2}".to_string()), ("{\n  \"a\": 2,\n  \"b\": 1\n}".to_string(), None));
    assert_eq!(prettify("true".to_string()), ("true".to_string(), None));
}

#[test]
fn an_export_reads_back_as_its_own_requests_only() {
    let export = ReqwesturIO::new(samples(), Some("out.json".to_string()), ExportType::JSON).unwrap();
    let text = export.export().ok().unwrap();
    assert!(export.reads_back(&text));
    assert!(!export.reads_back("[]"));
    assert!(!export.reads_back("no json"));
    assert!(!export.reads_back(&text.replace("\"POST\"", "\"PUT\"")));
    assert!(!export.reads_back(&text.replace("\"X-A\"", "\"X-B\"")));
    assert!(!export.reads_back(&text.replace("plain", "other")));

    let http = ReqwesturIO::new(samples(), Some("out.http".to_string()), ExportType::HTTP).unwrap();
    assert!(!http.reads_back(&http.export().ok().unwrap()));

    let none = ReqwesturIO::new(Vec::new(), Some("out.json".to_string()), ExportType::JSON).unwrap();
    assert!(none.reads_back("[]"));
    assert!(none.reads_back(" [ ] "));
    assert!(!none.reads_back(&text));
}

#[test]
fn requests_are_compared_by_what_was_composed() {
    let requests = samples();
    let sent = &requests[4];
    let template = sent.template();
    assert!(sent.same_composition(&template));
    assert!(template.same_composition(sent));
    assert!(!sent.same_composition(&requests[0]));
    let mut other = sent.template();
    other.add_header("a", "b");
    assert!(!sent.same_composition(&other));
    let mut other = sent.template();
    other.set_uri("http://localhost:8080/y");
    assert!(!sent.same_composition(&other));
    let mut other = sent.template();
    other.set_body(None);
    assert!(!sent.same_composition(&other));
    let mut other = sent.template();
    other.set_content_type(ContentType::JSON);
    assert!(!sent.same_composition(&other));
    let mut other = sent.template();
    other.add_param("a", "b");
    assert!(!sent.same_composition(&other));
    let mut other = sent.template();
    other.notification(&Notification::new("n", NotificationKind::WARN));
    assert!(sent.same_composition(&other));

    assert!(same_compositions(&samples(), &samples()));
    assert!(!same_compositions(&samples(), &samples()[..4].to_vec()));
    assert!(same_compositions(&Vec::new(), &Vec::new()));
}

#[test]
fn pairs_and_optional_texts_are_compared_by_their_characters() {
    assert!(same_pairs(&vec![pair("a", "b")], &vec![pair("a", "b")]));
    assert!(!same_pairs(&vec![pair("a", "b")], &vec![pair("a", "c")]));
    assert!(!same_pairs(&vec![pair("a", "b")], &vec![pair("c", "b")]));
    assert!(!same_pairs(&vec![pair("a", "b")], &Vec::new()));
    assert!(!same_pairs(&vec![pair("a", "b"), pair("c", "d")], &vec![pair("c", "d"), pair("a", "b")]));
    assert!(same_pairs(&Vec::new(), &Vec::new()));
    assert!(same_option(&None, &None));
    assert!(same_option(&Some("x".to_string()), &Some("x".to_string())));
    assert!(!same_option(&Some("x".to_string()), &Some("y".to_string())));
    assert!(!same_option(&Some(String::new()), &None));
    assert!(!same_option(&None, &Some(String::new())));
}
