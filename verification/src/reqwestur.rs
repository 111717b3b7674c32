//! The state of the program and the state machine that carries the current
//! request through one exchange.
//!
//! The exchange itself is not made here. [`Reqwestur::begin_send`] prepares it and
//! hands out a [`Dispatch`]; whoever performs it reports an [`Exchange`], and
//! [`Reqwestur::complete_send`] writes the result back. [`Reqwestur::send`] does
//! the three steps in one call, with the exchange as a function. What depends on
//! the TLS library, the loading of the client identity, is kept apart from the
//! rules: [`Reqwestur::begin_with`] takes its outcome as an argument.

use crate::certificates::{Certificate, CertificateView};
use crate::content::Payload;
use crate::json::{prettified, prettify, prettify_failure};
use crate::method::Method;
use crate::notification::{Message, Notification, NotificationKind};
use crate::request::{Request, RequestEvent, RequestView};
use crate::response::{
    canonical_reason, reason_or_unknown, reason_phrase, Response, ResponseView, StatusCode,
};
use crate::store::{History, SavedRequests};
use crate::text::join2;
use crate::timestamp::{pattern, shown, timestamp, utc_format};
use crate::validator::{check_sendable, sendable};
use vstd::prelude::*;

verus! {

/// The panel that is shown.
#[derive(Clone, Copy, Debug, PartialEq, Eq, Structural)]
pub enum AppView {
    Main,
    Request,
    Saved,
    History,
}

impl Default for AppView {
    fn default() -> (view: Self)
        ensures
            view == AppView::Main,
    {
        AppView::Main
    }
}

/// The status that stands for a transport failure which names none.
pub const FALLBACK_STATUS: StatusCode = 400;

/// The model of an [`Exchange`].
#[allow(inconsistent_fields)]
pub enum ExchangeView {
    Answered {
        status: StatusCode,
        headers: Seq<(Seq<char>, Seq<char>)>,
        cookies: Seq<Seq<char>>,
        text: Seq<char>,
    },
    Failed { status: Option<StatusCode>, text: Seq<char> },
}

/// What the transport reports of one exchange.
#[allow(inconsistent_fields)]
pub enum Exchange {
    /// The server answered, with whatever status.
    Answered {
        status: StatusCode,
        headers: Vec<(String, String)>,
        cookies: Vec<String>,
        text: String,
    },
    /// No answer came: the connection, TLS, the name lookup or a timeout failed.
    /// `status` is the status that the failure names, if it names one, and `text`
    /// the text of the error.
    Failed { status: Option<StatusCode>, text: String },
}

impl View for Exchange {
    type V = ExchangeView;

    open spec fn view(&self) -> ExchangeView {
        match self {
            Exchange::Answered { status, headers, cookies, text } => ExchangeView::Answered {
                status: *status,
                headers: headers.deep_view(),
                cookies: cookies.deep_view(),
                text: text@,
            },
            Exchange::Failed { status, text } => ExchangeView::Failed {
                status: *status,
                text: text@,
            },
        }
    }
}

impl ExchangeView {
    /// The text that came back: the body of the answer, or the text of the error.
    pub open spec fn text(self) -> Seq<char> {
        match self {
            ExchangeView::Answered { text, .. } => text,
            ExchangeView::Failed { text, .. } => text,
        }
    }

    /// The status of the response: that of the answer, or that of the failure,
    /// which is 400 where the failure names none.
    pub open spec fn status(self) -> StatusCode {
        match self {
            ExchangeView::Answered { status, .. } => status,
            ExchangeView::Failed { status: Some(status), .. } => status,
            ExchangeView::Failed { status: None, .. } => FALLBACK_STATUS,
        }
    }

    /// The response that stands for the exchange. A failure is a response too: it
    /// has no headers and no cookies, and the error's text is its body. The body
    /// is shown prettified where it is JSON.
    pub open spec fn response(self) -> ResponseView {
        ResponseView {
            status: self.status(),
            reason: reason_or_unknown(canonical_reason(self.status())),
            headers: match self {
                ExchangeView::Answered { headers, .. } => headers,
                ExchangeView::Failed { .. } => Seq::empty(),
            },
            cookies: match self {
                ExchangeView::Answered { cookies, .. } => cookies,
                ExchangeView::Failed { .. } => Seq::empty(),
            },
            body: prettified(self.text()),
        }
    }

    /// The notification that closes the exchange: that it was sent, or why the
    /// JSON that came back could not be written again.
    pub open spec fn notice(self) -> Message {
        closing_message(prettify_failure(self.text()))
    }
}

/// The request after the exchange that was made for it.
pub open spec fn settled(
    request: RequestView,
    exchange: ExchangeView,
    unix_seconds: i64,
) -> RequestView {
    RequestView {
        event: RequestEvent::SENT,
        response: exchange.response(),
        notification: Some(exchange.notice()),
        timestamp: shown(utc_format(unix_seconds, pattern())),
        ..request
    }
}

/// The notification that closes an exchange, given why the JSON that came back
/// could not be written again, if that was so.
pub open spec fn closing_message(failure: Option<Seq<char>>) -> Message {
    match failure {
        None => Message { kind: NotificationKind::INFO, text: "Sent successfully."@ },
        Some(reason) => Message {
            kind: NotificationKind::ERROR,
            text: "Could not prettify JSON - "@ + reason,
        },
    }
}

/// Computes [`closing_message`].
pub fn closing_notification(failure: Option<String>) -> (notification: Notification)
    ensures
        notification@ == Some(closing_message(failure.deep_view())),
{
    match failure {
        None => Notification::new("Sent successfully.", NotificationKind::INFO),
        Some(reason) => {
            let words = join2("Could not prettify JSON - ", reason.as_str());
            Notification::new(words.as_str(), NotificationKind::ERROR)
        },
    }
}

/// The response and the closing notification of an exchange.
pub fn conclude(exchange: Exchange) -> (outcome: (Response, Notification))
    ensures
        outcome.0@ == exchange@.response(),
        outcome.1@ == Some(exchange@.notice()),
{
    let (status, headers, cookies, text) = match exchange {
        Exchange::Answered { status, headers, cookies, text } => (status, headers, cookies, text),
        Exchange::Failed { status, text } => {
            let status = match status {
                Some(status) => status,
                None => FALLBACK_STATUS,
            };
            let headers: Vec<(String, String)> = Vec::new();
            let cookies: Vec<String> = Vec::new();
            assert(headers.deep_view() =~= Seq::empty());
            assert(cookies.deep_view() =~= Seq::empty());
            (status, headers, cookies, text)
        },
    };
    let (body, failure) = prettify(text);
    let notification = closing_notification(failure);
    let response = Response { status, reason: reason_phrase(status), headers, cookies, body };
    (response, notification)
}

/// The model of a [`Dispatch`]. Of the identity it says only whether there is
/// one.
pub struct DispatchView {
    pub request: RequestView,
    pub has_identity: bool,
}

/// All that the transport needs for one exchange: a copy of the request as it
/// stood when sending began, and the client identity to present.
pub struct Dispatch {
    request: Request,
    identity: Option<reqwest::Identity>,
}

impl View for Dispatch {
    type V = DispatchView;

    closed spec fn view(&self) -> DispatchView {
        DispatchView { request: self.request@, has_identity: self.identity is Some }
    }
}

/// The name under which the program presents itself to servers.
pub open spec fn user_agent() -> Seq<char> {
    "REQWESTUR"@
}

impl Dispatch {
    /// The request as it stood when sending began.
    pub fn request(&self) -> (request: &Request)
        ensures
            request@ == self@.request,
    {
        &self.request
    }

    /// The client identity to install, if the exchange presents one.
    pub fn identity(&self) -> (identity: Option<&reqwest::Identity>)
        ensures
            identity is Some == self@.has_identity,
    {
        self.identity.as_ref()
    }

    /// The method of the exchange.
    pub fn method(&self) -> (method: Method)
        ensures
            method == self@.request.method,
    {
        self.request.method()
    }

    /// The target of the exchange.
    pub fn uri(&self) -> (uri: &str)
        ensures
            uri@ == self@.request.address.uri,
    {
        self.request.uri()
    }

    /// The value of the `User-Agent` header, which is fixed.
    pub fn user_agent(&self) -> (agent: &'static str)
        ensures
            agent@ == user_agent(),
    {
        "REQWESTUR"
    }

    /// The headers to attach, in their order.
    pub fn headers(&self) -> (headers: &Vec<(String, String)>)
        ensures
            headers.deep_view() == self@.request.headers,
    {
        self.request.headers()
    }

    /// The body to attach.
    pub fn payload(&self) -> (payload: Payload)
        ensures
            payload@ == self@.request.payload(),
    {
        self.request.payload()
    }
}

/// The model of a [`Reqwestur`].
pub struct ReqwesturView {
    pub is_dark_mode: bool,
    pub menu_minimised: bool,
    pub view: AppView,
    pub request: RequestView,
    pub saved_requests: Seq<RequestView>,
    pub certificate: CertificateView,
    pub history: Seq<RequestView>,
    pub header_editor_open: bool,
    pub payload_editor_open: bool,
    pub certificate_editor_open: bool,
    pub help_modal_open: bool,
    pub about_modal_open: bool,
    pub notification: Option<Message>,
}

/// What is shown where sending needs a client identity and none is there.
pub open spec fn missing_certificate() -> Message {
    Message {
        kind: NotificationKind::WARN,
        text: "Cannot find certificates, have you added them?"@,
    }
}

/// What is shown where a request without an address was to be saved.
pub open spec fn save_refused() -> Message {
    Message { kind: NotificationKind::WARN, text: "Failed to save request!"@ }
}

/// What is shown after a request was saved.
pub open spec fn save_done() -> Message {
    Message { kind: NotificationKind::INFO, text: "Saved request successfully!"@ }
}

/// What an attempt to load the client identity amounts to: `None` where none was
/// made, else the reason for which it failed, if it failed.
pub open spec fn attempt_of(loaded: Option<Result<reqwest::Identity, String>>) -> Option<
    Option<Seq<char>>,
> {
    match loaded {
        Some(Ok(_)) => Some(None),
        Some(Err(reason)) => Some(Some(reason@)),
        None => None,
    }
}

impl ReqwesturView {
    /// The state of a program that starts for the first time.
    pub open spec fn initial() -> ReqwesturView {
        ReqwesturView {
            is_dark_mode: false,
            menu_minimised: false,
            view: AppView::Main,
            request: RequestView::fresh(),
            saved_requests: Seq::empty(),
            certificate: CertificateView::unset(),
            history: Seq::empty(),
            header_editor_open: false,
            payload_editor_open: false,
            certificate_editor_open: false,
            help_modal_open: false,
            about_modal_open: false,
            notification: None,
        }
    }

    /// The state of a program that starts again with what an earlier run left:
    /// the request is fresh and all windows are closed, the rest is kept.
    pub open spec fn reopened(self) -> ReqwesturView {
        ReqwesturView {
            request: RequestView::fresh(),
            header_editor_open: false,
            payload_editor_open: false,
            certificate_editor_open: false,
            help_modal_open: false,
            about_modal_open: false,
            ..self
        }
    }

    /// The state after the current request was to be saved. A request without an
    /// address is not saved.
    pub open spec fn saved(self) -> ReqwesturView {
        if self.request.address.uri.len() == 0 {
            ReqwesturView { notification: Some(save_refused()), ..self }
        } else {
            ReqwesturView {
                saved_requests: self.saved_requests.push(self.request.template()),
                notification: Some(save_done()),
                ..self
            }
        }
    }

    /// The state after the entry of the history at `index` was to be saved as a
    /// template; without such an entry nothing changes.
    pub open spec fn history_saved(self, index: int) -> ReqwesturView {
        if 0 <= index < self.history.len() {
            ReqwesturView {
                saved_requests: self.saved_requests.push(self.history[index].template()),
                ..self
            }
        } else {
            self
        }
    }

    /// The state after the saved template at `index` was to be opened: it is the
    /// current request and the request panel is shown; without such a template
    /// nothing changes.
    pub open spec fn saved_opened(self, index: int) -> ReqwesturView {
        if 0 <= index < self.saved_requests.len() {
            ReqwesturView { request: self.saved_requests[index], view: AppView::Request, ..self }
        } else {
            self
        }
    }

    /// The state after the entry of the history at `index` was to be opened: it
    /// is the current request and the request panel is shown; without such an
    /// entry nothing changes.
    pub open spec fn history_opened(self, index: int) -> ReqwesturView {
        if 0 <= index < self.history.len() {
            ReqwesturView { request: self.history[index], view: AppView::Request, ..self }
        } else {
            self
        }
    }

    /// The certificate once sending has tried, or not tried, to load the
    /// identity. `attempt` is `None` where nothing was tried, else it holds the
    /// reason for which loading failed, if it failed.
    pub open spec fn certificate_after(
        self,
        attempt: Option<Option<Seq<char>>>,
    ) -> CertificateView {
        match attempt {
            Some(failure) => self.certificate.loaded(failure),
            None => self.certificate,
        }
    }

    /// Whether sending stops before the network: a client identity is required
    /// and none is held.
    pub open spec fn start_fails(self, attempt: Option<Option<Seq<char>>>) -> bool {
        let certificate = self.certificate_after(attempt);
        certificate.required && !certificate.has_identity
    }

    /// The request once sending has begun: pending and without a response, with
    /// the answer of the check that was made right then. Where sending stops
    /// before the network the request is unsent again and shows why.
    pub open spec fn request_started(self, attempt: Option<Option<Seq<char>>>) -> RequestView {
        let pending = RequestView {
            event: RequestEvent::PENDING,
            response: ResponseView::empty(),
            sendable: sendable(self.request, self.certificate_after(attempt)),
            ..self.request
        };
        if self.start_fails(attempt) {
            RequestView {
                event: RequestEvent::UNSENT,
                notification: Some(missing_certificate()),
                ..pending
            }
        } else {
            pending
        }
    }

    /// The state once sending has begun.
    pub open spec fn started(self, attempt: Option<Option<Seq<char>>>) -> ReqwesturView {
        ReqwesturView {
            request: self.request_started(attempt),
            certificate: self.certificate_after(attempt),
            ..self
        }
    }

    /// What is handed to the transport once sending has begun.
    pub open spec fn dispatched(self, attempt: Option<Option<Seq<char>>>) -> DispatchView {
        DispatchView {
            request: self.request_started(attempt),
            has_identity: self.certificate_after(attempt).required,
        }
    }

    /// The state after an exchange: the request that was dispatched takes the
    /// place of the current one, with what came back, and a copy of it is
    /// appended to the history.
    pub open spec fn completed(
        self,
        dispatched: RequestView,
        exchange: ExchangeView,
        unix_seconds: i64,
    ) -> ReqwesturView {
        let request = settled(dispatched, exchange, unix_seconds);
        ReqwesturView { request, history: self.history.push(request), ..self }
    }

    /// Whether `attempt` is an attempt that sending makes with what was read from
    /// the certificate file: the identity is loaded exactly where that is due and
    /// the file was read, and a failed read is the reason of the failure.
    pub open spec fn attempts(
        self,
        file: Option<Result<Vec<u8>, String>>,
        attempt: Option<Option<Seq<char>>>,
    ) -> bool {
        &&& attempt is Some <==> self.certificate.load_is_due() && file is Some
        &&& attempt is Some ==> (file matches Some(Err(reason)) ==> attempt == Some(Some(reason@)))
    }
}

/// The program's state: what is shown, the current request, the saved templates,
/// the certificate and the history.
pub struct Reqwestur {
    pub is_dark_mode: bool,
    pub menu_minimised: bool,
    pub view: AppView,
    pub request: Request,
    pub saved_requests: SavedRequests,
    pub certificate: Certificate,
    pub history: History,
    pub header_editor_open: bool,
    pub payload_editor_open: bool,
    pub certificate_editor_open: bool,
    pub help_modal_open: bool,
    pub about_modal_open: bool,
    pub notification: Notification,
}

impl View for Reqwestur {
    type V = ReqwesturView;

    open spec fn view(&self) -> ReqwesturView {
        ReqwesturView {
            is_dark_mode: self.is_dark_mode,
            menu_minimised: self.menu_minimised,
            view: self.view,
            request: self.request@,
            saved_requests: self.saved_requests@,
            certificate: self.certificate@,
            history: self.history@,
            header_editor_open: self.header_editor_open,
            payload_editor_open: self.payload_editor_open,
            certificate_editor_open: self.certificate_editor_open,
            help_modal_open: self.help_modal_open,
            about_modal_open: self.about_modal_open,
            notification: self.notification@,
        }
    }
}

impl Default for Reqwestur {
    fn default() -> (state: Self)
        ensures
            state@ == ReqwesturView::initial(),
    {
        let state = Reqwestur {
            is_dark_mode: false,
            menu_minimised: false,
            view: AppView::Main,
            request: Request::default(),
            saved_requests: SavedRequests::default(),
            certificate: Certificate::default(),
            history: History::default(),
            header_editor_open: false,
            payload_editor_open: false,
            certificate_editor_open: false,
            help_modal_open: false,
            about_modal_open: false,
            notification: Notification::default(),
        };
        state
    }
}

impl Reqwestur {
    /// The state at the start of the program, given what an earlier run left, if
    /// anything.
    pub fn new(previous: Option<Reqwestur>) -> (state: Self)
        ensures
            state@ == match previous {
                Some(left) => left@.reopened(),
                None => ReqwesturView::initial(),
            },
    {
        match previous {
            Some(left) => Reqwestur {
                request: Request::default(),
                header_editor_open: false,
                payload_editor_open: false,
                certificate_editor_open: false,
                help_modal_open: false,
                about_modal_open: false,
                ..left
            },
            None => Reqwestur::default(),
        }
    }

    /// Looks again at whether the current request can be sent, and keeps the
    /// answer on the request.
    pub fn check_sendable(&mut self) -> (fit: bool)
        ensures
            fit == sendable(old(self)@.request, old(self)@.certificate),
            final(self)@ == (ReqwesturView {
                request: RequestView { sendable: fit, ..old(self)@.request },
                ..old(self)@
            }),
    {
        let fit = check_sendable(&self.request, &self.certificate);
        self.request.store_sendable(fit);
        fit
    }

    /// Saves the current request as a template and says so; a request without an
    /// address is refused. Returns whether the request was saved.
    pub fn save_request(&mut self) -> (saved: bool)
        ensures
            saved == (old(self)@.request.address.uri.len() > 0),
            final(self)@ == old(self)@.saved(),
    {
        if self.request.uri().is_empty() {
            self.notification = Notification::new(
                "Failed to save request!",
                NotificationKind::WARN,
            );
            false
        } else {
            self.saved_requests.save(&self.request);
            self.notification = Notification::new(
                "Saved request successfully!",
                NotificationKind::INFO,
            );
            true
        }
    }

    /// Saves the entry of the history at `index` as a template; without such an
    /// entry nothing changes.
    pub fn save_from_history(&mut self, index: usize) -> (found: bool)
        ensures
            found == (index < old(self)@.history.len()),
            final(self)@ == old(self)@.history_saved(index as int),
    {
        match self.history.get(index) {
            Some(entry) => {
                self.saved_requests.save(entry);
                true
            },
            None => false,
        }
    }

    /// Makes the saved template at `index` the current request and shows it;
    /// without such a template nothing changes.
    pub fn open_saved(&mut self, index: usize) -> (found: bool)
        ensures
            found == (index < old(self)@.saved_requests.len()),
            final(self)@ == old(self)@.saved_opened(index as int),
    {
        match self.saved_requests.get(index) {
            Some(template) => {
                self.request = template.clone();
                self.view = AppView::Request;
                true
            },
            None => false,
        }
    }

    /// Makes the entry of the history at `index` the current request and shows
    /// it; without such an entry nothing changes.
    pub fn open_history(&mut self, index: usize) -> (found: bool)
        ensures
            found == (index < old(self)@.history.len()),
            final(self)@ == old(self)@.history_opened(index as int),
    {
        match self.history.get(index) {
            Some(entry) => {
                self.request = entry.clone();
                self.view = AppView::Request;
                true
            },
            None => false,
        }
    }

    /// Empties the history.
    pub fn clear_history(&mut self)
        ensures
            final(self)@ == (ReqwesturView { history: Seq::empty(), ..old(self)@ }),
    {
        self.history.clear();
    }

    /// Begins to send the current request, given the outcome of the attempt to
    /// load the client identity, if one was made; the outcome is recorded on the
    /// certificate first.
    ///
    /// The request becomes pending and loses its response, and the answer to
    /// whether it can be sent is looked up again and kept on it. Where a client
    /// identity is required and none is held, nothing is dispatched: the request
    /// is unsent again, shows a warning, and the warning is returned. The history
    /// changes in neither case.
    pub fn begin_with(&mut self, loaded: Option<Result<reqwest::Identity, String>>) -> (dispatch:
        Result<Dispatch, Notification>)
        ensures
            final(self)@ == old(self)@.started(attempt_of(loaded)),
            match dispatch {
                Ok(ready) => !old(self)@.start_fails(attempt_of(loaded)) && ready@ == old(
                    self,
                )@.dispatched(attempt_of(loaded)),
                Err(warning) => old(self)@.start_fails(attempt_of(loaded)) && warning@ == Some(
                    missing_certificate(),
                ),
            },
    {
        match loaded {
            Some(outcome) => {
                self.certificate.confirm(outcome);
            },
            None => {},
        }
        let fit = check_sendable(&self.request, &self.certificate);
        self.request.start();
        self.request.store_sendable(fit);
        if self.certificate.required() {
            match self.certificate.identity_copy() {
                Some(identity) => Ok(
                    Dispatch { request: self.request.clone(), identity: Some(identity) },
                ),
                None => {
                    let warning = Notification::new(
                        "Cannot find certificates, have you added them?",
                        NotificationKind::WARN,
                    );
                    self.request.abandon(&warning);
                    Err(warning)
                },
            }
        } else {
            Ok(Dispatch { request: self.request.clone(), identity: None })
        }
    }

    /// Begins to send the current request. `file` is what was read from the
    /// certificate file; it is looked at only where the identity has to be loaded
    /// first, see [`CertificateView::load_is_due`], and then the identity is
    /// loaded from it. All else is as in [`Reqwestur::begin_with`].
    pub fn begin_send(&mut self, file: Option<Result<Vec<u8>, String>>) -> (dispatch: Result<
        Dispatch,
        Notification,
    >)
        ensures
            exists|attempt: Option<Option<Seq<char>>>|
                {
                    &&& old(self)@.attempts(file, attempt)
                    &&& final(self)@ == old(self)@.started(attempt)
                    &&& match dispatch {
                        Ok(ready) => !old(self)@.start_fails(attempt) && ready@ == old(
                            self,
                        )@.dispatched(attempt),
                        Err(warning) => old(self)@.start_fails(attempt) && warning@ == Some(
                            missing_certificate(),
                        ),
                    }
                },
            final(self)@.history == old(self)@.history,
            final(self)@.request.event != RequestEvent::SENT,
            old(self)@.certificate.required && !old(self)@.certificate.has_identity && old(
                self,
            )@.certificate.passphrase.len() == 0 ==> dispatch is Err,
            !old(self)@.certificate.required || old(self)@.certificate.has_identity
                ==> dispatch is Ok,
            sendable(old(self)@.request, old(self)@.certificate) ==> dispatch is Ok,
    {
        let loaded = if self.certificate.load_is_due() {
            match file {
                Some(read) => Some(self.certificate.import(read)),
                None => None,
            }
        } else {
            None
        };
        self.begin_with(loaded)
    }

    /// Ends the exchange that was made for `dispatch`. The request that was
    /// dispatched takes the place of the current one, with the response, the
    /// closing notification and the timestamp of `unix_seconds`, and is marked as
    /// sent; a copy of it is appended to the history. Returns the response.
    pub fn complete_send(
        &mut self,
        dispatch: Dispatch,
        exchange: Exchange,
        unix_seconds: i64,
    ) -> (response: Response)
        ensures
            final(self)@ == old(self)@.completed(dispatch@.request, exchange@, unix_seconds),
            response@ == exchange@.response(),
            final(self)@.request.event == RequestEvent::SENT,
            final(self)@.history.len() == old(self)@.history.len() + 1,
    {
        let Dispatch { request, identity: _ } = dispatch;
        let mut request = request;
        let (response, notification) = conclude(exchange);
        request.settle(response.clone(), notification, timestamp(unix_seconds));
        self.history.record(&request);
        self.request = request;
        response
    }

    /// Sends the current request: begins, lets `transport` make the exchange,
    /// and completes with what `transport` reports, which is the exchange and the
    /// time at which it ended, in seconds since the start of 1970.
    ///
    /// An error is returned only where sending stops before the network, see
    /// [`Reqwestur::begin_send`]; then `transport` is not called. Every exchange,
    /// whatever its status and even if it failed, gives a response.
    pub fn send<F: FnOnce(&Dispatch) -> (Exchange, i64)>(
        &mut self,
        file: Option<Result<Vec<u8>, String>>,
        transport: F,
    ) -> (outcome: Result<Response, Notification>)
        requires
            forall|dispatch: &Dispatch| transport.requires((dispatch,)),
        ensures
            exists|attempt: Option<Option<Seq<char>>>|
                {
                    &&& old(self)@.attempts(file, attempt)
                    &&& match outcome {
                        Err(warning) => {
                            &&& old(self)@.start_fails(attempt)
                            &&& warning@ == Some(missing_certificate())
                            &&& final(self)@ == old(self)@.started(attempt)
                        },
                        Ok(response) => {
                            &&& !old(self)@.start_fails(attempt)
                            &&& exists|dispatch: Dispatch, exchange: Exchange, unix_seconds: i64|
                                {
                                    &&& dispatch@ == old(self)@.dispatched(attempt)
                                    &&& transport.ensures((&dispatch,), (exchange, unix_seconds))
                                    &&& final(self)@ == old(self)@.started(attempt).completed(
                                        dispatch@.request,
                                        exchange@,
                                        unix_seconds,
                                    )
                                    &&& response@ == exchange@.response()
                                }
                        },
                    }
                },
            old(self)@.certificate.required && !old(self)@.certificate.has_identity && old(
                self,
            )@.certificate.passphrase.len() == 0 ==> outcome is Err,
            !old(self)@.certificate.required || old(self)@.certificate.has_identity
                ==> outcome is Ok,
            sendable(old(self)@.request, old(self)@.certificate) ==> outcome is Ok,
            outcome is Err ==> final(self)@.request.event != RequestEvent::SENT,
            outcome is Err ==> final(self)@.history == old(self)@.history,
            outcome is Ok ==> final(self)@.request.event == RequestEvent::SENT,
            outcome is Ok ==> final(self)@.history.len() == old(self)@.history.len() + 1,
    {
        match self.begin_send(file) {
            Ok(dispatch) => {
                let (exchange, unix_seconds) = transport(&dispatch);
                Ok(self.complete_send(dispatch, exchange, unix_seconds))
            },
            Err(warning) => Err(warning),
        }
    }

    /// Starts a fresh request and shows it.
    pub fn new_request(&mut self)
        ensures
            final(self)@ == (ReqwesturView {
                request: RequestView::fresh(),
                view: AppView::Request,
                ..old(self)@
            }),
    {
        self.request = Request::default();
        self.view = AppView::Request;
    }
}

/// Without the identity that is required, and without a passphrase to load it
/// with, sending stops before the network, whatever was read from the file: no
/// identity is loaded, the request is not marked as sent, and the history stays
/// as it is.
pub proof fn missing_identity_stops_sending(
    state: ReqwesturView,
    file: Option<Result<Vec<u8>, String>>,
    attempt: Option<Option<Seq<char>>>,
)
    requires
        state.certificate.required,
        !state.certificate.has_identity,
        state.certificate.passphrase.len() == 0,
        state.attempts(file, attempt),
    ensures
        attempt is None,
        state.start_fails(attempt),
        state.started(attempt).request.event == RequestEvent::UNSENT,
        state.started(attempt).history == state.history,
        state.started(attempt).certificate == state.certificate,
{
}

/// Every exchange that is completed, whatever its status and even if it failed,
/// leaves the request marked as sent, with the response that stands for the
/// exchange, and adds exactly one entry to the history: a copy of the request
/// as it is then. Entries that were there are not changed.
pub proof fn every_exchange_is_recorded(
    state: ReqwesturView,
    dispatched: RequestView,
    exchange: ExchangeView,
    unix_seconds: i64,
)
    ensures
        ({
            let after = state.completed(dispatched, exchange, unix_seconds);
            &&& after.request.event == RequestEvent::SENT
            &&& after.request.response == exchange.response()
            &&& after.history.len() == state.history.len() + 1
            &&& after.history.last() == after.request
            &&& forall|i: int| 0 <= i < state.history.len() ==> after.history[i] == state.history[i]
        }),
{
}

/// Sending changes nothing of what was composed: from the beginning to the end
/// of an attempt the request keeps its method, headers, address, encoding, body
/// and fields, and the saved templates stay as they are.
pub proof fn sending_keeps_what_was_composed(
    state: ReqwesturView,
    attempt: Option<Option<Seq<char>>>,
    exchange: ExchangeView,
    unix_seconds: i64,
)
    ensures
        state.started(attempt).request.template() == state.request.template(),
        state.dispatched(attempt).request.template() == state.request.template(),
        state.started(attempt).completed(
            state.dispatched(attempt).request,
            exchange,
            unix_seconds,
        ).request.template() == state.request.template(),
        state.started(attempt).completed(
            state.dispatched(attempt).request,
            exchange,
            unix_seconds,
        ).saved_requests == state.saved_requests,
{
}

/// A request that was found fit to be sent is dispatched: with a valid
/// certificate no attempt to load the identity is due, and sending does not stop
/// before the network.
pub proof fn sendable_requests_are_dispatched(
    state: ReqwesturView,
    file: Option<Result<Vec<u8>, String>>,
    attempt: Option<Option<Seq<char>>>,
)
    requires
        state.certificate.valid(),
        sendable(state.request, state.certificate),
        state.attempts(file, attempt),
    ensures
        attempt is None,
        !state.start_fails(attempt),
        state.started(attempt).request.event == RequestEvent::PENDING,
        state.started(attempt).request.sendable,
{
}

} // verus!
