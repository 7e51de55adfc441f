use vstd::prelude::*;
use vstd::string::StringExecFns;

use crate::input::{resolve_message, resolved_message, InputSource, NotifyError};
use crate::priority::{priority_name, NtfyPriority};

verus! {

/// One HTTP header: its name and its value.
#[derive(Debug)]
pub struct Header {
    pub name: String,
    pub value: String,
}

/// A POST to `endpoint` whose raw body is `body`.
#[derive(Debug)]
pub struct NotificationRequest {
    pub endpoint: String,
    pub body: String,
    pub headers: Vec<Header>,
}

/// What one run is asked to send.
#[derive(Debug)]
pub struct Config {
    pub title: Option<String>,
    pub message: Option<String>,
    pub endpoint: String,
    pub priority: NtfyPriority,
    pub tags: String,
}

/// A request ready to dispatch, with the line to print before sending it.
#[derive(Debug)]
pub struct Outgoing {
    pub summary: String,
    pub request: NotificationRequest,
}

/// The title used when none is given.
pub open spec fn default_title(p: NtfyPriority) -> Seq<char> {
    "New "@ + priority_name(p) + " priority notification"@
}

/// The title sent: the given one, else the one made from the priority.
pub open spec fn title_for(title: Option<String>, p: NtfyPriority) -> Seq<char> {
    match title {
        Some(t) => t@,
        None => default_title(p),
    }
}

/// The line printed before a request is sent.
pub open spec fn summary_text(endpoint: Seq<char>, message: Seq<char>, p: NtfyPriority) -> Seq<char> {
    "Sending "@ + message + " to "@ + endpoint + " with priority "@ + priority_name(p)
}

/// The headers of a notification, in the order they are set:
/// `Priority`, `Title`, then `Tags`, each as (name, value).
pub open spec fn headers_for(title: Seq<char>, p: NtfyPriority, tags: Seq<char>) -> Seq<(Seq<char>, Seq<char>)> {
    seq![("Priority"@, priority_name(p)), ("Title"@, title), ("Tags"@, tags)]
}

impl Header {
    /// The header as a (name, value) pair of character sequences.
    pub open spec fn view_pair(&self) -> (Seq<char>, Seq<char>) {
        (self.name@, self.value@)
    }
}

impl NotificationRequest {
    /// The headers as (name, value) pairs of character sequences.
    pub open spec fn header_pairs(&self) -> Seq<(Seq<char>, Seq<char>)> {
        self.headers@.map_values(|h: Header| h.view_pair())
    }

    /// This is the request that sends `body` to `endpoint` with the given
    /// title, priority and tags.
    pub open spec fn describes(
        &self,
        endpoint: Seq<char>,
        body: Seq<char>,
        title: Seq<char>,
        p: NtfyPriority,
        tags: Seq<char>,
    ) -> bool {
        &&& self.endpoint@ == endpoint
        &&& self.body@ == body
        &&& self.header_pairs() == headers_for(title, p, tags)
    }
}

/// The title to send: `title` when given, else "New {priority} priority notification".
pub fn resolve_title(title: &Option<String>, priority: NtfyPriority) -> (r: String)
    ensures
        r@ == title_for(*title, priority),
{
    match title {
        Some(t) => t.clone(),
        None => {
            let mut s = String::from_str("New ");
            let name = priority.name();
            s.append(name.as_str());
            s.append(" priority notification");
            s
        },
    }
}

/// The human-readable line reporting the endpoint, message and priority.
pub fn summary_line(endpoint: &String, message: &String, priority: NtfyPriority) -> (r: String)
    ensures
        r@ == summary_text(endpoint@, message@, priority),
{
    let mut s = String::from_str("Sending ");
    s.append(message.as_str());
    s.append(" to ");
    s.append(endpoint.as_str());
    s.append(" with priority ");
    let name = priority.name();
    s.append(name.as_str());
    s
}

/// Assembles the POST: the message as raw body, and the headers `Priority`
/// (the priority's lowercase name), `Title` (resolved as in `resolve_title`)
/// and `Tags` (passed through verbatim).
pub fn build_request(
    endpoint: &String,
    message: String,
    title: &Option<String>,
    priority: NtfyPriority,
    tags: &String,
) -> (r: NotificationRequest)
    ensures
        r.describes(endpoint@, message@, title_for(*title, priority), priority, tags@),
{
    let mut headers: Vec<Header> = Vec::new();
    headers.push(Header { name: String::from_str("Priority"), value: priority.name() });
    headers.push(Header { name: String::from_str("Title"), value: resolve_title(title, priority) });
    headers.push(Header { name: String::from_str("Tags"), value: tags.clone() });
    let r = NotificationRequest { endpoint: endpoint.clone(), body: message, headers };
    assert(r.header_pairs() =~= headers_for(title_for(*title, priority), priority, tags@));
    r
}

/// Prepares one run's notification: resolves the message from the input
/// source and the flag, then builds the summary line and the request. Fails,
/// with nothing built, when standard input is a terminal and no message flag
/// was given.
pub fn prepare(config: &Config, source: &InputSource) -> (r: Result<Outgoing, NotifyError>)
    ensures
        r is Err <==> resolved_message(*source, config.message) is None,
        r is Err ==> r == Err::<Outgoing, NotifyError>(NotifyError::MissingMessage),
        r is Ok ==> ({
            let out = r->Ok_0;
            let body = resolved_message(*source, config.message)->Some_0;
            &&& out.request.describes(
                config.endpoint@,
                body,
                title_for(config.title, config.priority),
                config.priority,
                config.tags@,
            )
            &&& out.summary@ == summary_text(config.endpoint@, body, config.priority)
        }),
{
    match resolve_message(source, &config.message) {
        Err(e) => Err(e),
        Ok(message) => {
            let summary = summary_line(&config.endpoint, &message, config.priority);
            let request = build_request(
                &config.endpoint,
                message,
                &config.title,
                config.priority,
                &config.tags,
            );
            Ok(Outgoing { summary, request })
        },
    }
}

} // verus!
