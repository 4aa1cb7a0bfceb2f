//! Source types shared between the supervisor and the application state:
//! statuses, events, and the verified helpers the supervisor's producers use
//! to name sources and build request URLs.

use vstd::prelude::*;

verus! {

/// Lifecycle state of a source.
#[derive(Debug, Clone)]
pub enum SourceStatus {
    Starting,
    Running,
    Error(String),
    Stopped,
}

impl SourceStatus {
    /// A source is active while it is starting or running.
    pub fn is_active(&self) -> (r: bool)
        ensures
            r == (self is Starting || self is Running),
    {
        match self {
            SourceStatus::Starting => true,
            SourceStatus::Running => true,
            SourceStatus::Error(_) => false,
            SourceStatus::Stopped => false,
        }
    }
}

/// One event from a producer: a line of output, or a status transition.
pub enum SourceEvent {
    Log { source: String, line: String },
    Status { source: String, status: SourceStatus },
}

/// A source as the application sees it.
#[derive(Debug, Clone)]
pub struct SourceInfo {
    /// Unique id of the form `kind/name`.
    pub id: String,
    /// Provider kind: `docker`, `azure`, `command` or `file`.
    pub kind: String,
    pub status: SourceStatus,
}

/// The id a source gets: the provider kind, a slash, and the name.
pub open spec fn source_id_of(kind: Seq<char>, name: Seq<char>) -> Seq<char> {
    kind + "/"@ + name
}

/// Build a `kind/name` source id.
pub fn make_source_id(kind: &str, name: &str) -> (r: String)
    ensures
        r@ == source_id_of(kind@, name@),
{
    let mut s = String::from_str(kind);
    s.append("/");
    s.append(name);
    s
}

/// Management-plane URL of an Azure container app.
pub fn azure_base_url(subscription: &str, resource_group: &str, app: &str) -> (r: String)
    ensures
        r@ == "https://management.azure.com/subscriptions/"@ + subscription@ + "/resourceGroups/"@
            + resource_group@ + "/providers/Microsoft.App/containerApps/"@ + app@,
{
    let mut s = String::from_str("https://management.azure.com/subscriptions/");
    s.append(subscription);
    s.append("/resourceGroups/");
    s.append(resource_group);
    s.append("/providers/Microsoft.App/containerApps/");
    s.append(app);
    s
}

/// Log-stream URL of one replica of an Azure container app, following with a
/// hundred lines of tail in text form.
pub fn azure_log_stream_url(
    domain: &str,
    subscription: &str,
    resource_group: &str,
    app: &str,
    revision: &str,
    replica: &str,
) -> (r: String)
    ensures
        r@ == "https://"@ + domain@ + "/subscriptions/"@ + subscription@ + "/resourceGroups/"@
            + resource_group@ + "/containerApps/"@ + app@ + "/revisions/"@ + revision@
            + "/replicas/"@ + replica@ + "/logstream?follow=true&tailLines=100&output=text"@,
{
    let mut s = String::from_str("https://");
    s.append(domain);
    s.append("/subscriptions/");
    s.append(subscription);
    s.append("/resourceGroups/");
    s.append(resource_group);
    s.append("/containerApps/");
    s.append(app);
    s.append("/revisions/");
    s.append(revision);
    s.append("/replicas/");
    s.append(replica);
    s.append("/logstream?follow=true&tailLines=100&output=text");
    s
}

} // verus!
