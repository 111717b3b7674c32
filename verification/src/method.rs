//! The HTTP methods that a request can use.

use crate::colour::Colour;
use crate::text::same_text;
use crate::traits::ToColour;
use vstd::prelude::*;
use vstd::string::StringExecFns;

verus! {

/// An HTTP method.
#[allow(clippy::upper_case_acronyms)]
#[derive(Clone, Copy, Debug, PartialEq, Eq, Structural)]
pub enum Method {
    GET,
    POST,
    PUT,
    PATCH,
    DELETE,
}

impl Default for Method {
    fn default() -> (method: Self)
        ensures
            method == Method::GET,
    {
        Method::GET
    }
}

impl Method {
    /// The name of the method as it stands on the wire and in exported files.
    pub open spec fn label(self) -> Seq<char> {
        match self {
            Method::GET => "GET"@,
            Method::POST => "POST"@,
            Method::PUT => "PUT"@,
            Method::PATCH => "PATCH"@,
            Method::DELETE => "DELETE"@,
        }
    }

    /// The method that a name stands for, if it is the name of one.
    pub open spec fn named(name: Seq<char>) -> Option<Method> {
        if name == "GET"@ {
            Some(Method::GET)
        } else if name == "POST"@ {
            Some(Method::POST)
        } else if name == "PUT"@ {
            Some(Method::PUT)
        } else if name == "PATCH"@ {
            Some(Method::PATCH)
        } else if name == "DELETE"@ {
            Some(Method::DELETE)
        } else {
            None
        }
    }

    /// Whether requests of this method carry a payload.
    pub open spec fn carries_payload(self) -> bool {
        self == Method::PATCH || self == Method::POST || self == Method::PUT
    }

    /// Writes [`Method::label`].
    pub fn to_string(&self) -> (label: String)
        ensures
            label@ == self.label(),
    {
        match self {
            Method::GET => String::from_str("GET"),
            Method::POST => String::from_str("POST"),
            Method::PUT => String::from_str("PUT"),
            Method::PATCH => String::from_str("PATCH"),
            Method::DELETE => String::from_str("DELETE"),
        }
    }

    /// Reads a method from its name, see [`Method::named`].
    pub fn from_name(name: &str) -> (method: Option<Method>)
        ensures
            method == Method::named(name@),
    {
        if same_text(name, "GET") {
            Some(Method::GET)
        } else if same_text(name, "POST") {
            Some(Method::POST)
        } else if same_text(name, "PUT") {
            Some(Method::PUT)
        } else if same_text(name, "PATCH") {
            Some(Method::PATCH)
        } else if same_text(name, "DELETE") {
            Some(Method::DELETE)
        } else {
            None
        }
    }

    /// All methods, in the order in which they are offered.
    pub fn values() -> (all: Vec<Method>)
        ensures
            all@ == seq![Method::GET, Method::POST, Method::PUT, Method::PATCH, Method::DELETE],
    {
        let mut all: Vec<Method> = Vec::new();
        all.push(Method::GET);
        all.push(Method::POST);
        all.push(Method::PUT);
        all.push(Method::PATCH);
        all.push(Method::DELETE);
        all
    }

    /// Computes [`Method::carries_payload`].
    pub fn has_payload(&self) -> (carries: bool)
        ensures
            carries == self.carries_payload(),
    {
        match self {
            Method::PATCH | Method::POST | Method::PUT => true,
            Method::GET | Method::DELETE => false,
        }
    }

    /// Every method is read back from its own label.
    pub proof fn label_is_read_back(method: Method)
        ensures
            Method::named(method.label()) == Some(method),
    {
        reveal_strlit("GET");
        reveal_strlit("POST");
        reveal_strlit("PUT");
        reveal_strlit("PATCH");
        reveal_strlit("DELETE");
        assert("GET"@[0] == 'G' && "PUT"@[0] == 'P');
        assert("POST"@[1] == 'O' && "PATCH"@[1] == 'A');
    }
}

impl ToColour for Method {
    /// Reading is blue, changing is orange, deleting is red, whatever the theme.
    open spec fn colour(&self, dark_mode: bool) -> Colour {
        match self {
            Method::GET => Colour::LightBlue,
            Method::POST => Colour::Orange,
            Method::PUT => Colour::Orange,
            Method::PATCH => Colour::Orange,
            Method::DELETE => Colour::Red,
        }
    }

    fn to_colour(&self, dark_mode: bool) -> (colour: Colour) {
        match self {
            Method::GET => Colour::LightBlue,
            Method::POST => Colour::Orange,
            Method::PUT => Colour::Orange,
            Method::PATCH => Colour::Orange,
            Method::DELETE => Colour::Red,
        }
    }
}

} // verus!
