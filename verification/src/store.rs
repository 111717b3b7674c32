//! The two lists that outlive a request: the history of what was sent, and the
//! templates that the user saved.

use crate::request::{Request, RequestView};
use vstd::prelude::*;

verus! {

/// A copy of a list of requests.
pub fn clone_requests(requests: &Vec<Request>) -> (copy: Vec<Request>)
    ensures
        copy.deep_view() == requests.deep_view(),
{
    let mut copy: Vec<Request> = Vec::new();
    let mut i: usize = 0;
    while i < requests.len()
        invariant
            i <= requests.len(),
            copy.len() == i,
            forall|j: int| 0 <= j < i ==> copy@[j]@ == requests@[j]@,
        decreases requests.len() - i,
    {
        copy.push(requests[i].clone());
        i += 1;
    }
    copy
}

/// The templates of a list of requests, in their order.
pub open spec fn templates_of(requests: Seq<RequestView>) -> Seq<RequestView> {
    Seq::new(requests.len(), |i: int| requests[i].template())
}

/// Whether every request of a list is a template.
pub open spec fn all_templates(requests: Seq<RequestView>) -> bool {
    forall|i: int| 0 <= i < requests.len() ==> (#[trigger] requests[i]).template() == requests[i]
}

/// The log of the requests that were sent, oldest first. An entry is a copy taken
/// when the exchange ended; entries are added at the end and never changed.
pub struct History {
    entries: Vec<Request>,
}

impl View for History {
    type V = Seq<RequestView>;

    closed spec fn view(&self) -> Seq<RequestView> {
        self.entries.deep_view()
    }
}

impl Default for History {
    fn default() -> (history: Self)
        ensures
            history@ == Seq::<RequestView>::empty(),
    {
        let history = History { entries: Vec::new() };
        history
    }
}

impl Clone for History {
    fn clone(&self) -> (copy: Self)
        ensures
            copy@ == self@,
    {
        History { entries: clone_requests(&self.entries) }
    }
}

impl History {
    /// The history that an earlier run of the program left.
    pub fn restore(entries: Vec<Request>) -> (history: Self)
        ensures
            history@ == entries.deep_view(),
    {
        History { entries }
    }

    /// The entries, oldest first.
    pub fn entries(&self) -> (entries: &Vec<Request>)
        ensures
            entries.deep_view() == self@,
    {
        &self.entries
    }

    /// The number of entries.
    pub fn len(&self) -> (len: usize)
        ensures
            len == self@.len(),
    {
        self.entries.len()
    }

    /// Whether there is no entry.
    pub fn is_empty(&self) -> (empty: bool)
        ensures
            empty == (self@.len() == 0),
    {
        self.entries.len() == 0
    }

    /// The entry at `index`, if there is one.
    pub fn get(&self, index: usize) -> (entry: Option<&Request>)
        ensures
            match entry {
                Some(found) => index < self@.len() && found@ == self@[index as int],
                None => index >= self@.len(),
            },
    {
        if index < self.entries.len() {
            Some(&self.entries[index])
        } else {
            None
        }
    }

    /// Appends a copy of `request`.
    pub fn record(&mut self, request: &Request)
        ensures
            final(self)@ == old(self)@.push(request@),
    {
        self.entries.push(request.clone());
    }

    /// Removes every entry.
    pub fn clear(&mut self)
        ensures
            final(self)@ == Seq::<RequestView>::empty(),
    {
        self.entries = Vec::new();
    }
}

/// The templates that the user saved, oldest first. Of a request only what was
/// composed is kept: method, headers, address, encoding, body and fields.
pub struct SavedRequests {
    templates: Vec<Request>,
}

impl View for SavedRequests {
    type V = Seq<RequestView>;

    closed spec fn view(&self) -> Seq<RequestView> {
        self.templates.deep_view()
    }
}

impl Default for SavedRequests {
    fn default() -> (saved: Self)
        ensures
            saved@ == Seq::<RequestView>::empty(),
    {
        let saved = SavedRequests { templates: Vec::new() };
        saved
    }
}

impl Clone for SavedRequests {
    fn clone(&self) -> (copy: Self)
        ensures
            copy@ == self@,
    {
        SavedRequests { templates: clone_requests(&self.templates) }
    }
}

impl SavedRequests {
    /// The templates of `requests`, as an earlier run of the program left them.
    pub fn restore(requests: &Vec<Request>) -> (saved: Self)
        ensures
            saved@ == templates_of(requests.deep_view()),
    {
        let mut templates: Vec<Request> = Vec::new();
        let mut i: usize = 0;
        while i < requests.len()
            invariant
                i <= requests.len(),
                templates.len() == i,
                forall|j: int| 0 <= j < i ==> templates@[j]@ == requests@[j]@.template(),
            decreases requests.len() - i,
        {
            templates.push(requests[i].template());
            i += 1;
        }
        SavedRequests { templates }
    }

    /// The templates, oldest first.
    pub fn templates(&self) -> (templates: &Vec<Request>)
        ensures
            templates.deep_view() == self@,
    {
        &self.templates
    }

    /// The number of templates.
    pub fn len(&self) -> (len: usize)
        ensures
            len == self@.len(),
    {
        self.templates.len()
    }

    /// Whether there is no template.
    pub fn is_empty(&self) -> (empty: bool)
        ensures
            empty == (self@.len() == 0),
    {
        self.templates.len() == 0
    }

    /// The template at `index`, if there is one.
    pub fn get(&self, index: usize) -> (template: Option<&Request>)
        ensures
            match template {
                Some(found) => index < self@.len() && found@ == self@[index as int],
                None => index >= self@.len(),
            },
    {
        if index < self.templates.len() {
            Some(&self.templates[index])
        } else {
            None
        }
    }

    /// Appends the template of `request`.
    pub fn save(&mut self, request: &Request)
        ensures
            final(self)@ == old(self)@.push(request@.template()),
    {
        let template = request.template();
        self.templates.push(template);
    }
}

/// The template of a template is the template itself: saving strips a request
/// once and for all.
pub proof fn template_of_template(request: RequestView)
    ensures
        request.template().template() == request.template(),
{
}

/// A saved request keeps what was composed and nothing else: its response is
/// empty, it has no notification and no timestamp, it is unsent and not marked as
/// sendable.
pub proof fn template_keeps_what_was_composed(request: RequestView)
    ensures
        request.template().method == request.method,
        request.template().headers == request.headers,
        request.template().address == request.address,
        request.template().content_type == request.content_type,
        request.template().body == request.body,
        request.template().params == request.params,
        request.template().response == crate::response::ResponseView::empty(),
        request.template().notification is None,
        request.template().timestamp == Seq::<char>::empty(),
        request.template().event == crate::request::RequestEvent::UNSENT,
        !request.template().sendable,
{
}

/// Saving keeps a list of templates a list of templates.
pub proof fn saving_keeps_templates(saved: Seq<RequestView>, request: RequestView)
    requires
        all_templates(saved),
    ensures
        all_templates(saved.push(request.template())),
{
}

} // verus!
