//! The request engine of a desktop HTTP client.
//!
//! The crate holds the data model of a request and its response, the rule that
//! decides whether a request may be sent, the state machine that carries a request
//! through one exchange, and the encodings in which requests are exported. Drawing,
//! file access and the network exchange itself are left to the program around it.
//!
//! Every type has a model, its view, and every function says over the models what
//! it returns and what it changes. Where a function calls into `reqwest`,
//! `serde_json` or `chrono`, the call stands in a small function of its own whose
//! contract is taken on trust; what such a call returns is either left open or
//! has a name, and the rules that follow the call are stated over that name.
//!
//! * [`notification`], [`method`], [`content`], [`address`], [`response`] and
//!   [`request`] are the data model.
//! * [`certificates`] holds the client identity for mutual TLS.
//! * [`validator`] is the rule on what can be sent.
//! * [`reqwestur`] is the state of the program and the state machine of sending;
//!   [`store`] holds the history and the saved templates.
//! * [`exports`] writes lists of requests as JSON and as HTTP text and reads the
//!   JSON back; [`json`] is the boundary to `serde_json`.
//! * [`timestamp`], [`text`], [`traits`], [`colour`], [`chip`], [`headers`],
//!   [`buttons`] and [`breakpoints`] are what the panels of the program ask for.

pub mod address;
pub mod breakpoints;
pub mod buttons;
pub mod certificates;
pub mod chip;
pub mod colour;
pub mod content;
pub mod exports;
pub mod headers;
pub mod json;
pub mod method;
pub mod notification;
pub mod request;
pub mod reqwestur;
pub mod response;
pub mod store;
pub mod text;
pub mod timestamp;
pub mod traits;
pub mod validator;
