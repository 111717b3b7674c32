use reqwestur::address::Address;
use reqwestur::breakpoints::{Breakpoint, BreakpointSize};
use reqwestur::buttons::{Chevron, MinimiserDirection};
use reqwestur::colour::Colour;
use reqwestur::content::{encode_payload, ContentType, Payload};
use reqwestur::headers::{column_count, StringToVec};
use reqwestur::method::Method;
use reqwestur::notification::{Notification, NotificationKind};
use reqwestur::request::{Request, RequestEvent};
use reqwestur::response::{reason_phrase, status_class, status_colour, Response, StatusClass};
use reqwestur::text::{contains_char, join2, join3, same_text};
use reqwestur::timestamp::timestamp;
use reqwestur::traits::{ToColour, ToStringForeign};

fn pair(name: &str, value: &str) -> (String, String) {
    (name.to_string(), value.to_string())
}

#[test]
fn new_notification_holds_its_message() {
    let slot = Notification::new("hello", NotificationKind::WARN);
    assert!(slot.is_shown());
    assert!(!slot.is_error());
    assert_eq!(slot.kind(), Some(NotificationKind::WARN));
    assert_eq!(slot.message(), Some("hello"));
}

#[test]
fn cleared_notification_is_empty() {
    let mut slot = Notification::new("broken", NotificationKind::ERROR);
    assert!(slot.is_error());
    slot.clear();
    assert!(!slot.is_shown());
    assert!(!slot.is_error());
    assert_eq!(slot.kind(), None);
    assert_eq!(slot.message(), None);
}

#[test]
fn default_notification_is_empty_and_default_kind_is_info() {
    assert!(!Notification::default().is_shown());
    assert_eq!(NotificationKind::default(), NotificationKind::INFO);
}

#[test]
fn notification_colours_follow_kind_and_theme() {
    assert_eq!(NotificationKind::INFO.to_colour(Some(true)), Colour::LightGreen);
    assert_eq!(NotificationKind::INFO.to_colour(Some(false)), Colour::DarkGreen);
    assert_eq!(NotificationKind::INFO.to_colour(None), Colour::DarkGreen);
    assert_eq!(NotificationKind::ERROR.to_colour(Some(true)), Colour::Red);
    assert_eq!(NotificationKind::WARN.to_colour(None), Colour::Orange);
}

#[test]
fn text_helpers_join_and_compare() {
    assert_eq!(join2("ab", "cd"), "abcd");
    assert_eq!(join3("a", "=", "b"), "a=b");
    assert!(same_text("GET", "GET"));
    assert!(!same_text("GET", "get"));
    assert!(contains_char("a\0b", '\0'));
    assert!(!contains_char("ab", '\0'));
    assert!(!contains_char("", 'a'));
}

#[test]
fn methods_have_labels_and_are_read_back() {
    let labels: Vec<String> = Method::values().iter().map(|m| m.to_string()).collect();
    assert_eq!(labels, vec!["GET", "POST", "PUT", "PATCH", "DELETE"]);
    for method in Method::values() {
        assert_eq!(Method::from_name(&method.to_string()), Some(method));
    }
    assert_eq!(Method::from_name("get"), None);
    assert_eq!(Method::from_name(""), None);
    assert_eq!(Method::default(), Method::GET);
}

#[test]
fn only_changing_methods_carry_a_payload() {
    assert!(Method::POST.has_payload());
    assert!(Method::PUT.has_payload());
    assert!(Method::PATCH.has_payload());
    assert!(!Method::GET.has_payload());
    assert!(!Method::DELETE.has_payload());
}

#[test]
fn method_colours() {
    assert_eq!(Method::GET.to_colour(false), Colour::LightBlue);
    assert_eq!(Method::POST.to_colour(true), Colour::Orange);
    assert_eq!(Method::PUT.to_colour(false), Colour::Orange);
    assert_eq!(Method::PATCH.to_colour(false), Colour::Orange);
    assert_eq!(Method::DELETE.to_colour(true), Colour::Red);
}

#[test]
fn content_types_have_labels_and_names() {
    assert_eq!(
        ContentType::values(),
        vec![
            ContentType::XWWWFORMURLENCODED,
            ContentType::JSON,
            ContentType::EMPTY,
            ContentType::TEXT,
            ContentType::MULTIPART
        ]
    );
    assert_eq!(ContentType::XWWWFORMURLENCODED.to_string(), "application/x-www-form-urlencoded");
    assert_eq!(ContentType::MULTIPART.to_string(), "multipart/form-data");
    assert_eq!(ContentType::JSON.to_string(), "application/json");
    assert_eq!(ContentType::TEXT.to_string(), "text/plain");
    assert_eq!(ContentType::EMPTY.to_string(), "empty");
    for content_type in ContentType::values() {
        assert_eq!(ContentType::from_name(&content_type.to_name()), Some(content_type));
    }
    assert_eq!(ContentType::JSON.to_name(), "JSON");
    assert_eq!(ContentType::from_name("application/json"), None);
    assert_eq!(ContentType::default(), ContentType::EMPTY);
}

#[test]
fn payload_follows_the_encoding() {
    let body = Some("{\"a\":1}".to_string());
    let params = vec![pair("a", "1"), pair("b", "x y")];
    assert!(matches!(encode_payload(ContentType::EMPTY, &body, &params), Payload::Absent));
    assert!(matches!(encode_payload(ContentType::TEXT, &None, &params), Payload::Absent));
    match encode_payload(ContentType::JSON, &body, &params) {
        Payload::Raw(text) => assert_eq!(text, "{\"a\":1}"),
        _ => panic!("JSON sends the free text"),
    }
    match encode_payload(ContentType::TEXT, &body, &params) {
        Payload::Raw(text) => assert_eq!(text, "{\"a\":1}"),
        _ => panic!("text sends the free text"),
    }
    match encode_payload(ContentType::XWWWFORMURLENCODED, &body, &params) {
        Payload::Form(pairs) => assert_eq!(pairs, params),
        _ => panic!("a form sends the fields"),
    }
    match encode_payload(ContentType::MULTIPART, &body, &params) {
        Payload::Multipart(pairs) => assert_eq!(pairs, params),
        _ => panic!("multipart sends the fields"),
    }
}

#[test]
fn status_classes_at_their_bounds() {
    assert_eq!(status_class(199), StatusClass::OtherError);
    assert_eq!(status_class(200), StatusClass::Success);
    assert_eq!(status_class(399), StatusClass::Success);
    assert_eq!(status_class(400), StatusClass::ClientError);
    assert_eq!(status_class(499), StatusClass::ClientError);
    assert_eq!(status_class(500), StatusClass::OtherError);
    assert_eq!(status_class(0), StatusClass::OtherError);
    assert_eq!(status_class(u16::MAX), StatusClass::OtherError);
}

#[test]
fn status_colours_at_their_bounds() {
    assert_eq!(status_colour(&200), Colour::Green);
    assert_eq!(status_colour(&399), Colour::Green);
    assert_eq!(status_colour(&400), Colour::Orange);
    assert_eq!(status_colour(&499), Colour::Orange);
    assert_eq!(status_colour(&500), Colour::Red);
    assert_eq!(status_colour(&100), Colour::Red);
    assert_eq!(200u16.to_colour(false), Colour::Rgb(60, 215, 60));
    assert_eq!(399u16.to_colour(true), Colour::Rgb(60, 215, 60));
    assert_eq!(400u16.to_colour(false), Colour::Orange);
    assert_eq!(499u16.to_colour(false), Colour::Orange);
    assert_eq!(500u16.to_colour(false), Colour::Red);
}

#[test]
fn reason_phrases_come_from_the_status() {
    assert_eq!(reason_phrase(200), "OK");
    assert_eq!(reason_phrase(404), "Not Found");
    assert_eq!(reason_phrase(400), "Bad Request");
    assert_eq!(reason_phrase(500), "Internal Server Error");
    assert_eq!(reason_phrase(299), "UNKNOWN");
    assert_eq!(reason_phrase(0), "UNKNOWN");
    assert_eq!(reason_phrase(1000), "UNKNOWN");
}

#[test]
fn default_response_is_empty() {
    let response = Response::default();
    assert_eq!(response.status, 0);
    assert!(response.reason.is_empty());
    assert!(response.headers.is_empty());
    assert!(response.cookies.is_empty());
    assert!(response.body.is_empty());
}

#[test]
fn address_of_a_url_has_no_notification() {
    let address = Address::new("https://example.com/path?x=1");
    assert_eq!(address.uri(), "https://example.com/path?x=1");
    assert!(address.is_valid());
    assert!(!address.notification().is_shown());
}

#[test]
fn address_of_no_url_shows_the_parser_error() {
    let address = Address::new("example.com");
    assert!(!address.is_valid());
    assert_eq!(address.notification().kind(), Some(NotificationKind::ERROR));
    assert_eq!(
        address.notification().message(),
        Some("URL cannot be parsed: relative URL without a base!")
    );
    let address = Address::new("http://");
    assert_eq!(address.notification().message(), Some("URL cannot be parsed: empty host!"));
}

#[test]
fn address_notification_follows_the_text() {
    let mut address = Address::default();
    assert_eq!(address.uri(), "");
    assert!(!address.is_valid());
    address.set_uri("http://localhost:8080");
    assert!(address.is_valid());
    assert!(!address.notification().is_shown());
    address.set_uri("http://[::1");
    assert!(!address.is_valid());
    assert!(address.notification().is_error());
}

#[test]
fn fresh_request_is_unsent_and_empty() {
    let request = Request::default();
    assert!(!request.sendable());
    assert_eq!(request.method(), Method::GET);
    assert!(request.headers().is_empty());
    assert_eq!(request.uri(), "");
    assert_eq!(request.timestamp(), "");
    assert_eq!(request.content_type(), ContentType::EMPTY);
    assert_eq!(request.body(), &None);
    assert!(request.params().is_empty());
    assert_eq!(request.response().status, 0);
    assert!(!request.notice().is_shown());
    assert_eq!(request.event(), RequestEvent::UNSENT);
    assert_eq!(RequestEvent::default(), RequestEvent::UNSENT);
}

#[test]
fn changing_the_method_resets_encoding_and_body() {
    for content_type in ContentType::values() {
        for method in Method::values() {
            let mut request = Request::default();
            request.set_uri("http://localhost/");
            request.add_header("Accept", "*/*");
            request.add_param("a", "1");
            request.set_content_type(content_type);
            request.set_body(Some("payload".to_string()));
            request.set_method(method);
            assert_eq!(request.method(), method);
            assert_eq!(request.content_type(), ContentType::EMPTY);
            assert_eq!(request.body(), &None);
            assert_eq!(request.uri(), "http://localhost/");
            assert_eq!(request.headers(), &vec![pair("Accept", "*/*")]);
            assert_eq!(request.params(), &vec![pair("a", "1")]);
        }
    }
}

#[test]
fn empty_encoding_holds_no_body() {
    let mut request = Request::default();
    request.set_body(Some("lost".to_string()));
    assert_eq!(request.body(), &None);
    request.set_content_type(ContentType::JSON);
    request.set_body(Some("{}".to_string()));
    assert_eq!(request.body(), &Some("{}".to_string()));
    request.set_content_type(ContentType::TEXT);
    assert_eq!(request.body(), &Some("{}".to_string()));
    request.set_content_type(ContentType::EMPTY);
    assert_eq!(request.body(), &None);
    request.set_content_type(ContentType::JSON);
    assert_eq!(request.body(), &None);
}

#[test]
fn headers_and_params_keep_order_and_duplicates() {
    let mut request = Request::default();
    request.add_header("X-A", "1");
    request.add_header("X-A", "2");
    request.add_param("k", "v");
    assert!(request.set_header(0, "X-B", "3"));
    assert!(!request.set_header(2, "X-C", "4"));
    assert!(request.set_param(0, "k", "w"));
    assert!(!request.set_param(1, "k", "x"));
    assert_eq!(request.headers(), &vec![pair("X-B", "3"), pair("X-A", "2")]);
    assert_eq!(request.params(), &vec![pair("k", "w")]);
}

#[test]
fn request_notification_is_attached() {
    let mut request = Request::default();
    request.notification(&Notification::new("note", NotificationKind::INFO));
    assert_eq!(request.notice().message(), Some("note"));
    assert_eq!(request.notice().kind(), Some(NotificationKind::INFO));
}

#[test]
fn request_payload_by_encoding() {
    let mut request = Request::default();
    request.add_param("a", "1");
    assert!(matches!(request.payload(), Payload::Absent));
    request.set_content_type(ContentType::JSON);
    assert!(matches!(request.payload(), Payload::Absent));
    request.set_body(Some("[1]".to_string()));
    assert!(matches!(request.payload(), Payload::Raw(text) if text == "[1]"));
    request.set_content_type(ContentType::XWWWFORMURLENCODED);
    assert!(matches!(request.payload(), Payload::Form(pairs) if pairs == vec![pair("a", "1")]));
    request.set_content_type(ContentType::MULTIPART);
    assert!(matches!(request.payload(), Payload::Multipart(pairs) if pairs == vec![pair("a", "1")]));
}

#[test]
fn template_keeps_what_was_composed_only() {
    let composed = Request::compose(
        Method::POST,
        "https://example.com/items",
        vec![pair("Accept", "application/json")],
        ContentType::JSON,
        Some("{\"n\":1}".to_string()),
        vec![pair("p", "q")],
    );
    let response = Response {
        status: 201,
        reason: "Created".to_string(),
        headers: vec![pair("Server", "x")],
        cookies: vec!["c".to_string()],
        body: "done".to_string(),
    };
    let request = Request::restore(
        composed,
        "01/02/2024 10:30",
        response,
        Notification::new("Sent successfully.", NotificationKind::INFO),
        RequestEvent::SENT,
    );
    assert_eq!(request.event(), RequestEvent::SENT);
    assert_eq!(request.timestamp(), "01/02/2024 10:30");
    assert_eq!(request.response().status, 201);

    let template = request.template();
    assert_eq!(template.method(), Method::POST);
    assert_eq!(template.uri(), "https://example.com/items");
    assert_eq!(template.headers(), &vec![pair("Accept", "application/json")]);
    assert_eq!(template.content_type(), ContentType::JSON);
    assert_eq!(template.body(), &Some("{\"n\":1}".to_string()));
    assert_eq!(template.params(), &vec![pair("p", "q")]);
    assert!(!template.sendable());
    assert_eq!(template.event(), RequestEvent::UNSENT);
    assert_eq!(template.timestamp(), "");
    assert!(!template.notice().is_shown());
    assert_eq!(template.response().status, 0);
    assert!(template.response().body.is_empty());
    assert!(template.response().headers.is_empty());
    assert!(template.response().cookies.is_empty());
}

#[test]
fn restored_pending_request_is_unsent() {
    let request = Request::restore(
        Request::default(),
        "",
        Response::default(),
        Notification::default(),
        RequestEvent::PENDING,
    );
    assert_eq!(request.event(), RequestEvent::UNSENT);
}

#[test]
fn composing_with_the_empty_encoding_drops_the_body() {
    let request = Request::compose(
        Method::GET,
        "nonsense",
        Vec::new(),
        ContentType::EMPTY,
        Some("x".to_string()),
        Vec::new(),
    );
    assert_eq!(request.body(), &None);
    assert!(request.address().notification().is_error());
    assert!(!request.has_url());
}

#[test]
fn timestamps_are_day_month_year_hour_minute() {
    assert_eq!(timestamp(0), "01/01/1970 00:00");
    assert_eq!(timestamp(59), "01/01/1970 00:00");
    assert_eq!(timestamp(1_700_000_000), "14/11/2023 22:13");
    assert_eq!(timestamp(-1), "31/12/1969 23:59");
    assert_eq!(timestamp(i64::MAX), "");
    assert_eq!(timestamp(i64::MIN), "");
}

#[test]
fn pairs_are_written_as_name_equals_value() {
    assert_eq!(pair("Accept", "*/*").to_string(), "Accept=*/*");
    assert_eq!(pair("", "").to_string(), "=");
}

#[test]
fn lists_become_rows() {
    let pairs = vec![pair("a", "1"), pair("b", "2")];
    assert_eq!(
        pairs.convert(),
        vec![vec!["a".to_string(), "1".to_string()], vec!["b".to_string(), "2".to_string()]]
    );
    let texts = vec!["x".to_string(), "y".to_string()];
    assert_eq!(texts.convert(), vec![vec!["x".to_string()], vec!["y".to_string()]]);
    assert_eq!(column_count(&pairs.convert()), 2);
    assert_eq!(column_count(&texts.convert()), 1);
    assert_eq!(column_count(&Vec::<String>::new().convert()), 0);
}

#[test]
fn breakpoints_take_the_smaller_side() {
    assert_eq!(BreakpointSize::from_length(0), BreakpointSize::SMALL);
    assert_eq!(BreakpointSize::from_length(599), BreakpointSize::SMALL);
    assert_eq!(BreakpointSize::from_length(600), BreakpointSize::MEDIUM);
    assert_eq!(BreakpointSize::from_length(799), BreakpointSize::MEDIUM);
    assert_eq!(BreakpointSize::from_length(800), BreakpointSize::LARGE);
    assert_eq!(BreakpointSize::from_length(999), BreakpointSize::LARGE);
    assert_eq!(BreakpointSize::from_length(1000), BreakpointSize::EXTREME);
    assert_eq!(
        BreakpointSize::compare(BreakpointSize::LARGE, BreakpointSize::SMALL),
        BreakpointSize::SMALL
    );
    assert_eq!(
        BreakpointSize::compare(BreakpointSize::MEDIUM, BreakpointSize::EXTREME),
        BreakpointSize::MEDIUM
    );
    assert_eq!(
        BreakpointSize::compare(BreakpointSize::LARGE, BreakpointSize::LARGE),
        BreakpointSize::LARGE
    );
    let window = Breakpoint::new(1200, 700);
    assert_eq!(window.size(), BreakpointSize::MEDIUM);
    assert_eq!(window.sizes(), (BreakpointSize::EXTREME, BreakpointSize::MEDIUM));
}

#[test]
fn minimiser_shows_the_chevron_of_its_side() {
    assert_eq!(MinimiserDirection::LeftToRight.icon(true), Chevron::Right);
    assert_eq!(MinimiserDirection::LeftToRight.icon(false), Chevron::Left);
    assert_eq!(MinimiserDirection::RightToLeft.icon(true), Chevron::Left);
    assert_eq!(MinimiserDirection::RightToLeft.icon(false), Chevron::Right);
}
