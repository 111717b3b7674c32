//! The target of a request and whether it is a URL.

use crate::notification::{Message, Notification, NotificationKind};
use crate::text::join3;
use vstd::prelude::*;

verus! {

/// What `reqwest::Url::parse` says of a text: `None` where it accepts the text as
/// an absolute URL, else the words of the error that it returns.
pub uninterp spec fn url_error(uri: Seq<char>) -> Option<Seq<char>>;

/// Calls `reqwest::Url::parse` on `uri`. The parser returns a URL or one variant of
/// its `ParseError`; the result here is that error's display text, and nothing for
/// a text that parsed.
#[verifier::external_body]
fn parse_url(uri: &str) -> (error: Option<String>)
    ensures
        error.deep_view() == url_error(uri@),
{
    match reqwest::Url::parse(uri) {
        Ok(_) => None,
        Err(error) => Some(error.to_string()),
    }
}

/// Whether a text is a well-formed URL.
pub open spec fn is_url(uri: Seq<char>) -> bool {
    url_error(uri) is None
}

/// The notification that belongs to an answer of the parser: none for a text that parsed,
/// else an error that repeats the parser's words.
pub open spec fn notice_of(error: Option<Seq<char>>) -> Option<Message> {
    match error {
        Some(words) => Some(
            Message {
                kind: NotificationKind::ERROR,
                text: "URL cannot be parsed: "@ + words + "!"@,
            },
        ),
        None => None,
    }
}

/// The notification for an answer of the parser, see [`notice_of`].
pub fn address_notice(error: Option<&str>) -> (notice: Notification)
    ensures
        notice@ == notice_of(
            match error {
                Some(words) => Some(words@),
                None => None,
            },
        ),
{
    match error {
        Some(words) => {
            let text = join3("URL cannot be parsed: ", words, "!");
            Notification::new(text.as_str(), NotificationKind::ERROR)
        },
        None => Notification::default(),
    }
}

/// The model of an [`Address`].
pub struct AddressView {
    pub uri: Seq<char>,
    pub notification: Option<Message>,
}

impl AddressView {
    /// An address is valid when its notification is the one that belongs to its text.
    pub open spec fn valid(self) -> bool {
        self.notification == notice_of(url_error(self.uri))
    }
}

/// Where a request goes. The notification is kept in step with the text: it holds
/// an error exactly while the text is no URL.
pub struct Address {
    uri: String,
    notification: Notification,
}

impl View for Address {
    type V = AddressView;

    closed spec fn view(&self) -> AddressView {
        AddressView { uri: self.uri@, notification: self.notification@ }
    }
}

impl Address {
    #[verifier::type_invariant]
    spec fn kept_valid(self) -> bool {
        self@.valid()
    }

    /// The address of `uri`, with the answer of the parser on it.
    pub fn new(uri: &str) -> (address: Self)
        ensures
            address@.uri == uri@,
            address@.valid(),
    {
        let answer = parse_url(uri);
        let notification = match &answer {
            Some(words) => address_notice(Some(words.as_str())),
            None => address_notice(None),
        };
        Address { uri: uri.to_owned(), notification }
    }

    /// Replaces the text and renews the notification.
    pub fn set_uri(&mut self, uri: &str)
        ensures
            final(self)@.uri == uri@,
            final(self)@.valid(),
    {
        *self = Address::new(uri);
    }

    /// The text of the address.
    pub fn uri(&self) -> (uri: &str)
        ensures
            uri@ == self@.uri,
    {
        self.uri.as_str()
    }

    /// The notification on the text: an error while it is no URL, else empty.
    pub fn notification(&self) -> (notification: &Notification)
        ensures
            notification@ == self@.notification,
            self@.valid(),
    {
        proof {
            use_type_invariant(self);
        }
        &self.notification
    }

    /// Whether the text is a URL.
    pub fn is_valid(&self) -> (valid: bool)
        ensures
            valid == is_url(self@.uri),
            self@.valid(),
    {
        proof {
            use_type_invariant(self);
        }
        !self.notification.is_error()
    }
}

impl Default for Address {
    fn default() -> (address: Self)
        ensures
            address@.uri == Seq::<char>::empty(),
            address@.valid(),
    {
        proof {
            reveal_strlit("");
        }
        let address = Address::new("");
        address
    }
}

impl Clone for Address {
    fn clone(&self) -> (copy: Self)
        ensures
            copy@ == self@,
    {
        proof {
            use_type_invariant(self);
        }
        Address { uri: self.uri.clone(), notification: self.notification.clone() }
    }
}

} // verus!
