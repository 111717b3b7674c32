//! The kinds of payload and the rule that turns what the user edited into what is
//! put on the wire.

use crate::text::{clone_pairs, same_text};
use vstd::prelude::*;
use vstd::string::StringExecFns;

verus! {

/// How the payload of a request is encoded.
#[allow(clippy::upper_case_acronyms)]
#[derive(Clone, Copy, Debug, PartialEq, Eq, Structural)]
pub enum ContentType {
    EMPTY,
    TEXT,
    MULTIPART,
    XWWWFORMURLENCODED,
    JSON,
}

impl Default for ContentType {
    fn default() -> (content_type: Self)
        ensures
            content_type == ContentType::EMPTY,
    {
        ContentType::EMPTY
    }
}

impl ContentType {
    /// The media type that is shown for the encoding.
    pub open spec fn label(self) -> Seq<char> {
        match self {
            ContentType::XWWWFORMURLENCODED => "application/x-www-form-urlencoded"@,
            ContentType::MULTIPART => "multipart/form-data"@,
            ContentType::JSON => "application/json"@,
            ContentType::TEXT => "text/plain"@,
            ContentType::EMPTY => "empty"@,
        }
    }

    /// The name under which the encoding stands in exported files.
    pub open spec fn name(self) -> Seq<char> {
        match self {
            ContentType::EMPTY => "EMPTY"@,
            ContentType::TEXT => "TEXT"@,
            ContentType::MULTIPART => "MULTIPART"@,
            ContentType::XWWWFORMURLENCODED => "XWWWFORMURLENCODED"@,
            ContentType::JSON => "JSON"@,
        }
    }

    /// The encoding that a name stands for, if it is the name of one.
    pub open spec fn named(name: Seq<char>) -> Option<ContentType> {
        if name == "EMPTY"@ {
            Some(ContentType::EMPTY)
        } else if name == "TEXT"@ {
            Some(ContentType::TEXT)
        } else if name == "MULTIPART"@ {
            Some(ContentType::MULTIPART)
        } else if name == "XWWWFORMURLENCODED"@ {
            Some(ContentType::XWWWFORMURLENCODED)
        } else if name == "JSON"@ {
            Some(ContentType::JSON)
        } else {
            None
        }
    }

    /// Writes [`ContentType::label`].
    pub fn to_string(&self) -> (label: String)
        ensures
            label@ == self.label(),
    {
        match self {
            ContentType::XWWWFORMURLENCODED => String::from_str(
                "application/x-www-form-urlencoded",
            ),
            ContentType::MULTIPART => String::from_str("multipart/form-data"),
            ContentType::JSON => String::from_str("application/json"),
            ContentType::TEXT => String::from_str("text/plain"),
            ContentType::EMPTY => String::from_str("empty"),
        }
    }

    /// Writes [`ContentType::name`].
    pub fn to_name(&self) -> (name: String)
        ensures
            name@ == self.name(),
    {
        match self {
            ContentType::EMPTY => String::from_str("EMPTY"),
            ContentType::TEXT => String::from_str("TEXT"),
            ContentType::MULTIPART => String::from_str("MULTIPART"),
            ContentType::XWWWFORMURLENCODED => String::from_str("XWWWFORMURLENCODED"),
            ContentType::JSON => String::from_str("JSON"),
        }
    }

    /// Reads an encoding from its name, see [`ContentType::named`].
    pub fn from_name(name: &str) -> (content_type: Option<ContentType>)
        ensures
            content_type == ContentType::named(name@),
    {
        if same_text(name, "EMPTY") {
            Some(ContentType::EMPTY)
        } else if same_text(name, "TEXT") {
            Some(ContentType::TEXT)
        } else if same_text(name, "MULTIPART") {
            Some(ContentType::MULTIPART)
        } else if same_text(name, "XWWWFORMURLENCODED") {
            Some(ContentType::XWWWFORMURLENCODED)
        } else if same_text(name, "JSON") {
            Some(ContentType::JSON)
        } else {
            None
        }
    }

    /// All encodings, in the order in which they are offered.
    pub fn values() -> (all: Vec<Self>)
        ensures
            all@ == seq![
                ContentType::XWWWFORMURLENCODED,
                ContentType::JSON,
                ContentType::EMPTY,
                ContentType::TEXT,
                ContentType::MULTIPART,
            ],
    {
        let mut all: Vec<ContentType> = Vec::new();
        all.push(ContentType::XWWWFORMURLENCODED);
        all.push(ContentType::JSON);
        all.push(ContentType::EMPTY);
        all.push(ContentType::TEXT);
        all.push(ContentType::MULTIPART);
        all
    }

    /// Every encoding is read back from its own name.
    pub proof fn name_is_read_back(content_type: ContentType)
        ensures
            ContentType::named(content_type.name()) == Some(content_type),
    {
        reveal_strlit("EMPTY");
        reveal_strlit("TEXT");
        reveal_strlit("MULTIPART");
        reveal_strlit("XWWWFORMURLENCODED");
        reveal_strlit("JSON");
        assert("EMPTY"@.len() == 5 && "TEXT"@.len() == 4 && "MULTIPART"@.len() == 9
            && "XWWWFORMURLENCODED"@.len() == 18 && "JSON"@.len() == 4);
        assert("TEXT"@[0] == 'T' && "JSON"@[0] == 'J');
    }
}

/// The free text that is held under an encoding: none under the empty encoding,
/// whatever is offered, else the text that is offered.
pub open spec fn held_body(content_type: ContentType, body: Option<Seq<char>>) -> Option<
    Seq<char>,
> {
    if content_type == ContentType::EMPTY {
        None
    } else {
        body
    }
}

/// The model of a [`Payload`].
pub enum PayloadView {
    /// Nothing is attached.
    Absent,
    /// The text is sent as it stands.
    Raw(Seq<char>),
    /// The pairs are sent as one URL-encoded form.
    Form(Seq<(Seq<char>, Seq<char>)>),
    /// Each pair is sent as one text field of a multipart body.
    Multipart(Seq<(Seq<char>, Seq<char>)>),
}

/// What a request puts on the wire as its body.
pub enum Payload {
    /// Nothing is attached.
    Absent,
    /// The text is sent as it stands.
    Raw(String),
    /// The pairs are sent as one URL-encoded form.
    Form(Vec<(String, String)>),
    /// Each pair is sent as one text field of a multipart body.
    Multipart(Vec<(String, String)>),
}

impl View for Payload {
    type V = PayloadView;

    open spec fn view(&self) -> PayloadView {
        match self {
            Payload::Absent => PayloadView::Absent,
            Payload::Raw(text) => PayloadView::Raw(text@),
            Payload::Form(pairs) => PayloadView::Form(pairs.deep_view()),
            Payload::Multipart(pairs) => PayloadView::Multipart(pairs.deep_view()),
        }
    }
}

/// The payload that belongs to an encoding, a free text and a list of fields. An
/// empty encoding attaches nothing; text and JSON send the free text as it stands,
/// if there is one; the two form encodings send the fields.
pub open spec fn payload_of(
    content_type: ContentType,
    body: Option<Seq<char>>,
    params: Seq<(Seq<char>, Seq<char>)>,
) -> PayloadView {
    match content_type {
        ContentType::EMPTY => PayloadView::Absent,
        ContentType::TEXT | ContentType::JSON => match body {
            Some(text) => PayloadView::Raw(text),
            None => PayloadView::Absent,
        },
        ContentType::XWWWFORMURLENCODED => PayloadView::Form(params),
        ContentType::MULTIPART => PayloadView::Multipart(params),
    }
}

/// Computes [`payload_of`].
pub fn encode_payload(
    content_type: ContentType,
    body: &Option<String>,
    params: &Vec<(String, String)>,
) -> (payload: Payload)
    ensures
        payload@ == payload_of(content_type, body.deep_view(), params.deep_view()),
{
    match content_type {
        ContentType::EMPTY => Payload::Absent,
        ContentType::TEXT | ContentType::JSON => match body {
            Some(text) => Payload::Raw(text.clone()),
            None => Payload::Absent,
        },
        ContentType::XWWWFORMURLENCODED => Payload::Form(clone_pairs(params)),
        ContentType::MULTIPART => Payload::Multipart(clone_pairs(params)),
    }
}

} // verus!
