//! A request with everything that belongs to it: what the user composed, what came
//! back, and where the request stands in its life.

use crate::address::{notice_of, url_error, Address, AddressView};
use crate::content::{encode_payload, held_body, payload_of, ContentType, Payload, PayloadView};
use crate::method::Method;
use crate::notification::{Message, Notification};
use crate::response::{Response, ResponseView};
use crate::text::{clone_pairs, same_option, same_pairs, same_text};
use vstd::prelude::*;
use vstd::string::StringExecFns;

verus! {

/// Where a request stands in one attempt to send it.
#[allow(clippy::upper_case_acronyms)]
#[derive(Clone, Copy, Debug, PartialEq, Eq, Structural)]
pub enum RequestEvent {
    /// Nothing has been sent.
    UNSENT,
    /// An exchange is under way.
    PENDING,
    /// The exchange is over and the response is there.
    SENT,
}

impl Default for RequestEvent {
    fn default() -> (event: Self)
        ensures
            event == RequestEvent::UNSENT,
    {
        RequestEvent::UNSENT
    }
}

/// The model of a [`Request`].
pub struct RequestView {
    pub sendable: bool,
    pub method: Method,
    pub headers: Seq<(Seq<char>, Seq<char>)>,
    pub address: AddressView,
    pub timestamp: Seq<char>,
    pub content_type: ContentType,
    pub body: Option<Seq<char>>,
    pub params: Seq<(Seq<char>, Seq<char>)>,
    pub response: ResponseView,
    pub notification: Option<Message>,
    pub event: RequestEvent,
}

impl RequestView {
    /// What holds of every request: its address is valid, and with the empty
    /// encoding it has no free-text body.
    pub open spec fn valid(self) -> bool {
        &&& self.address.valid()
        &&& self.content_type == ContentType::EMPTY ==> self.body is None
    }

    /// The request that nobody has touched yet.
    pub open spec fn fresh() -> RequestView {
        RequestView {
            sendable: false,
            method: Method::GET,
            headers: Seq::empty(),
            address: AddressView {
                uri: Seq::empty(),
                notification: notice_of(url_error(Seq::empty())),
            },
            timestamp: Seq::empty(),
            content_type: ContentType::EMPTY,
            body: None,
            params: Seq::empty(),
            response: ResponseView::empty(),
            notification: None,
            event: RequestEvent::UNSENT,
        }
    }

    /// The template of a request: what the user composed, and nothing of what
    /// happened to it.
    pub open spec fn template(self) -> RequestView {
        RequestView {
            method: self.method,
            headers: self.headers,
            address: self.address,
            content_type: self.content_type,
            body: self.body,
            params: self.params,
            ..RequestView::fresh()
        }
    }

    /// The request that is composed of the given parts and has seen nothing yet.
    /// Its address carries the notification that belongs to the text, and with the
    /// empty encoding the body is left out.
    pub open spec fn composed(
        method: Method,
        uri: Seq<char>,
        headers: Seq<(Seq<char>, Seq<char>)>,
        content_type: ContentType,
        body: Option<Seq<char>>,
        params: Seq<(Seq<char>, Seq<char>)>,
    ) -> RequestView {
        RequestView {
            method,
            headers,
            address: AddressView { uri, notification: notice_of(url_error(uri)) },
            content_type,
            body: held_body(content_type, body),
            params,
            ..RequestView::fresh()
        }
    }

    /// The body that is put on the wire.
    pub open spec fn payload(self) -> PayloadView {
        payload_of(self.content_type, self.body, self.params)
    }
}

/// The encoding of a payload and its free text, which is held only where the
/// encoding is not the empty one.
struct Content {
    content_type: ContentType,
    body: Option<String>,
}

impl Content {
    #[verifier::type_invariant]
    spec fn kept_valid(self) -> bool {
        self.content_type == ContentType::EMPTY ==> self.body is None
    }

    fn new(content_type: ContentType, body: Option<String>) -> (content: Self)
        ensures
            content.content_type == content_type,
            content.body.deep_view() == held_body(content_type, body.deep_view()),
    {
        if content_type == ContentType::EMPTY {
            Content { content_type, body: None }
        } else {
            Content { content_type, body }
        }
    }

    fn copy(&self) -> (content: Self)
        ensures
            content.content_type == self.content_type,
            content.body.deep_view() == self.body.deep_view(),
            self.content_type == ContentType::EMPTY ==> self.body is None,
    {
        proof {
            use_type_invariant(self);
        }
        Content { content_type: self.content_type, body: self.body.clone() }
    }
}

/// One HTTP request, its response and its state.
pub struct Request {
    sendable: bool,
    method: Method,
    headers: Vec<(String, String)>,
    address: Address,
    timestamp: String,
    content: Content,
    params: Vec<(String, String)>,
    response: Response,
    notification: Notification,
    event: RequestEvent,
}

impl View for Request {
    type V = RequestView;

    closed spec fn view(&self) -> RequestView {
        RequestView {
            sendable: self.sendable,
            method: self.method,
            headers: self.headers.deep_view(),
            address: self.address@,
            timestamp: self.timestamp@,
            content_type: self.content.content_type,
            body: self.content.body.deep_view(),
            params: self.params.deep_view(),
            response: self.response@,
            notification: self.notification@,
            event: self.event,
        }
    }
}

impl DeepView for Request {
    type V = RequestView;

    open spec fn deep_view(&self) -> RequestView {
        self@
    }
}

impl Default for Request {
    fn default() -> (request: Self)
        ensures
            request@ == RequestView::fresh(),
    {
        let request = Request {
            sendable: false,
            method: Method::GET,
            headers: Vec::new(),
            address: Address::default(),
            timestamp: String::new(),
            content: Content::new(ContentType::EMPTY, None),
            params: Vec::new(),
            response: Response::default(),
            notification: Notification::default(),
            event: RequestEvent::UNSENT,
        };
        assert(request.params.deep_view() =~= Seq::empty());
        request
    }
}

impl Clone for Request {
    fn clone(&self) -> (copy: Self)
        ensures
            copy@ == self@,
    {
        Request {
            sendable: self.sendable,
            method: self.method,
            headers: clone_pairs(&self.headers),
            address: self.address.clone(),
            timestamp: self.timestamp.clone(),
            content: self.content.copy(),
            params: clone_pairs(&self.params),
            response: self.response.clone(),
            notification: self.notification.clone(),
            event: self.event,
        }
    }
}

impl Request {
    /// A request composed of the given parts, see [`RequestView::composed`].
    pub fn compose(
        method: Method,
        uri: &str,
        headers: Vec<(String, String)>,
        content_type: ContentType,
        body: Option<String>,
        params: Vec<(String, String)>,
    ) -> (request: Self)
        ensures
            request@ == RequestView::composed(
                method,
                uri@,
                headers.deep_view(),
                content_type,
                body.deep_view(),
                params.deep_view(),
            ),
    {
        Request {
            sendable: false,
            method,
            headers,
            address: Address::new(uri),
            timestamp: String::new(),
            content: Content::new(content_type, body),
            params,
            response: Response::default(),
            notification: Notification::default(),
            event: RequestEvent::UNSENT,
        }
    }

    /// A request as an earlier run of the program left it: `composed` with what
    /// had happened to it. A request that was pending then has no exchange under
    /// way any more and is unsent.
    pub fn restore(
        composed: Request,
        timestamp: &str,
        response: Response,
        notification: Notification,
        event: RequestEvent,
    ) -> (request: Self)
        ensures
            request@ == (RequestView {
                timestamp: timestamp@,
                response: response@,
                notification: notification@,
                event: if event == RequestEvent::PENDING {
                    RequestEvent::UNSENT
                } else {
                    event
                },
                ..composed@
            }),
    {
        let mut request = composed;
        request.timestamp = String::from_str(timestamp);
        request.response = response;
        request.notification = notification;
        request.event = match event {
            RequestEvent::PENDING => RequestEvent::UNSENT,
            RequestEvent::UNSENT => RequestEvent::UNSENT,
            RequestEvent::SENT => RequestEvent::SENT,
        };
        request
    }

    /// Whether the request was found fit to be sent when that was last looked at.
    pub fn sendable(&self) -> (sendable: bool)
        ensures
            sendable == self@.sendable,
    {
        self.sendable
    }

    /// The method of the request.
    pub fn method(&self) -> (method: Method)
        ensures
            method == self@.method,
    {
        self.method
    }

    /// The headers, in the order in which they were added.
    pub fn headers(&self) -> (headers: &Vec<(String, String)>)
        ensures
            headers.deep_view() == self@.headers,
    {
        &self.headers
    }

    /// The address of the request.
    pub fn address(&self) -> (address: &Address)
        ensures
            address@ == self@.address,
            self@.valid(),
    {
        proof {
            use_type_invariant(&self.content);
        }
        let _ = self.address.is_valid();
        &self.address
    }

    /// The text of the address.
    pub fn uri(&self) -> (uri: &str)
        ensures
            uri@ == self@.address.uri,
    {
        self.address.uri()
    }

    /// When the request was last answered; empty before that.
    pub fn timestamp(&self) -> (timestamp: &str)
        ensures
            timestamp@ == self@.timestamp,
    {
        self.timestamp.as_str()
    }

    /// The encoding of the payload.
    pub fn content_type(&self) -> (content_type: ContentType)
        ensures
            content_type == self@.content_type,
    {
        self.content.content_type
    }

    /// The free-text body, if there is one.
    pub fn body(&self) -> (body: &Option<String>)
        ensures
            body.deep_view() == self@.body,
    {
        &self.content.body
    }

    /// The form fields, in the order in which they were added.
    pub fn params(&self) -> (params: &Vec<(String, String)>)
        ensures
            params.deep_view() == self@.params,
    {
        &self.params
    }

    /// The response; empty until the request has been answered.
    pub fn response(&self) -> (response: &Response)
        ensures
            response@ == self@.response,
    {
        &self.response
    }

    /// The notification on the request as a whole.
    pub fn notice(&self) -> (notification: &Notification)
        ensures
            notification@ == self@.notification,
    {
        &self.notification
    }

    /// Where the request stands.
    pub fn event(&self) -> (event: RequestEvent)
        ensures
            event == self@.event,
    {
        self.event
    }

    /// Chooses a method. This drops the payload in progress: the encoding goes
    /// back to empty and the free-text body is discarded, whatever they were.
    pub fn set_method(&mut self, method: Method)
        ensures
            final(self)@ == (RequestView {
                method,
                content_type: ContentType::EMPTY,
                body: None,
                ..old(self)@
            }),
    {
        self.content = Content::new(ContentType::EMPTY, None);
        self.method = method;
    }

    /// Replaces the text of the address; its notification follows.
    pub fn set_uri(&mut self, uri: &str)
        ensures
            final(self)@ == (RequestView {
                address: AddressView { uri: uri@, notification: notice_of(url_error(uri@)) },
                ..old(self)@
            }),
    {
        self.address = Address::new(uri);
    }

    /// Chooses an encoding. Nothing is converted; on entry to the empty encoding
    /// the free-text body is discarded.
    pub fn set_content_type(&mut self, content_type: ContentType)
        ensures
            final(self)@ == (RequestView {
                content_type,
                body: held_body(content_type, old(self)@.body),
                ..old(self)@
            }),
    {
        let kept = self.content.copy();
        self.content = Content::new(content_type, kept.body);
    }

    /// Replaces the free-text body. With the empty encoding there is no body to
    /// hold, and the request stays without one.
    pub fn set_body(&mut self, body: Option<String>)
        ensures
            final(self)@ == (RequestView {
                body: held_body(old(self)@.content_type, body.deep_view()),
                ..old(self)@
            }),
    {
        self.content = Content::new(self.content.content_type, body);
    }

    /// Appends a header.
    pub fn add_header(&mut self, name: &str, value: &str)
        ensures
            final(self)@ == (RequestView {
                headers: old(self)@.headers.push((name@, value@)),
                ..old(self)@
            }),
    {
        let ghost before = self.headers.deep_view();
        self.headers.push((String::from_str(name), String::from_str(value)));
        assert(self.headers.deep_view() =~= before.push((name@, value@)));
    }

    /// Overwrites the header at `index`; without such a header nothing changes.
    pub fn set_header(&mut self, index: usize, name: &str, value: &str) -> (found: bool)
        ensures
            found == (index < old(self)@.headers.len()),
            final(self)@ == (RequestView {
                headers: if found {
                    old(self)@.headers.update(index as int, (name@, value@))
                } else {
                    old(self)@.headers
                },
                ..old(self)@
            }),
    {
        let ghost before = self.headers.deep_view();
        if index < self.headers.len() {
            self.headers.set(index, (String::from_str(name), String::from_str(value)));
            assert(self.headers.deep_view() =~= before.update(index as int, (name@, value@)));
            true
        } else {
            false
        }
    }

    /// Appends a form field.
    pub fn add_param(&mut self, name: &str, value: &str)
        ensures
            final(self)@ == (RequestView {
                params: old(self)@.params.push((name@, value@)),
                ..old(self)@
            }),
    {
        let ghost before = self.params.deep_view();
        self.params.push((String::from_str(name), String::from_str(value)));
        assert(self.params.deep_view() =~= before.push((name@, value@)));
    }

    /// Overwrites the form field at `index`; without such a field nothing changes.
    pub fn set_param(&mut self, index: usize, name: &str, value: &str) -> (found: bool)
        ensures
            found == (index < old(self)@.params.len()),
            final(self)@ == (RequestView {
                params: if found {
                    old(self)@.params.update(index as int, (name@, value@))
                } else {
                    old(self)@.params
                },
                ..old(self)@
            }),
    {
        let ghost before = self.params.deep_view();
        if index < self.params.len() {
            self.params.set(index, (String::from_str(name), String::from_str(value)));
            assert(self.params.deep_view() =~= before.update(index as int, (name@, value@)));
            true
        } else {
            false
        }
    }

    /// Attaches a notification to the request as a whole.
    pub fn notification(&mut self, notification: &Notification)
        ensures
            final(self)@ == (RequestView { notification: notification@, ..old(self)@ }),
    {
        self.notification = notification.clone();
    }

    /// The template of this request, see [`RequestView::template`]: method,
    /// headers, address, encoding, body and fields are kept, all else is as in a
    /// fresh request.
    pub fn template(&self) -> (template: Request)
        ensures
            template@ == self@.template(),
    {
        let template = Request {
            sendable: false,
            method: self.method,
            headers: clone_pairs(&self.headers),
            address: self.address.clone(),
            timestamp: String::new(),
            content: self.content.copy(),
            params: clone_pairs(&self.params),
            response: Response::default(),
            notification: Notification::default(),
            event: RequestEvent::UNSENT,
        };
        template
    }

    /// Whether this request and `other` were composed alike: whether they have
    /// the same method, headers, address, encoding, body and fields, whatever
    /// else they hold.
    pub fn same_composition(&self, other: &Request) -> (same: bool)
        ensures
            same == (self@.template() == other@.template()),
    {
        let same_address = same_text(self.address().uri(), other.address().uri());
        self.method == other.method && self.content.content_type == other.content.content_type
            && same_address && same_pairs(&self.headers, &other.headers) && same_option(
            &self.content.body,
            &other.content.body,
        ) && same_pairs(&self.params, &other.params)
    }

    /// The body that this request puts on the wire, see [`payload_of`].
    pub fn payload(&self) -> (payload: Payload)
        ensures
            payload@ == self@.payload(),
    {
        encode_payload(self.content.content_type, &self.content.body, &self.params)
    }

    /// Keeps the answer of the last check of whether the request can be sent.
    pub(crate) fn store_sendable(&mut self, sendable: bool)
        ensures
            final(self)@ == (RequestView { sendable, ..old(self)@ }),
    {
        self.sendable = sendable;
    }

    /// Enters an attempt: the request is pending and has no response.
    pub(crate) fn start(&mut self)
        ensures
            final(self)@ == (RequestView {
                event: RequestEvent::PENDING,
                response: ResponseView::empty(),
                ..old(self)@
            }),
    {
        self.event = RequestEvent::PENDING;
        self.response = Response::default();
    }

    /// Leaves an attempt that never reached the network: the request is unsent
    /// again and shows why.
    pub(crate) fn abandon(&mut self, notification: &Notification)
        ensures
            final(self)@ == (RequestView {
                event: RequestEvent::UNSENT,
                notification: notification@,
                ..old(self)@
            }),
    {
        self.event = RequestEvent::UNSENT;
        self.notification = notification.clone();
    }

    /// Ends an attempt with what came back.
    pub(crate) fn settle(
        &mut self,
        response: Response,
        notification: Notification,
        timestamp: String,
    )
        ensures
            final(self)@ == (RequestView {
                event: RequestEvent::SENT,
                response: response@,
                notification: notification@,
                timestamp: timestamp@,
                ..old(self)@
            }),
    {
        self.response = response;
        self.notification = notification;
        self.timestamp = timestamp;
        self.event = RequestEvent::SENT;
    }

    /// Whether the address of the request is a URL. Every request is valid.
    pub fn has_url(&self) -> (valid: bool)
        ensures
            valid == crate::address::is_url(self@.address.uri),
            self@.valid(),
    {
        proof {
            use_type_invariant(&self.content);
        }
        self.address.is_valid()
    }
}

} // verus!
