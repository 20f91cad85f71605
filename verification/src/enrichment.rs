use vstd::prelude::*;

use crate::sentry_event::{opt_str_view, SentryEvent, SentryEventView};
use crate::text::{pairs_view, str_eq};

verus! {

/// Whether the event already names a real originating host: the field is
/// non-empty and not the `"n/a"` sentinel.
pub open spec fn spec_host_known(e: SentryEventView) -> bool {
    e.source_host.len() > 0 && e.source_host != "n/a"@
}

/// The pod whose host would complete this event: its name, exactly when the
/// host is unknown and the involved object is a pod.
pub open spec fn spec_pod_host_query(e: SentryEventView) -> Option<Seq<char>> {
    if !spec_host_known(e) && e.kind == Some("Pod"@) {
        Some(e.name)
    } else {
        None
    }
}

/// The event after a pod-host lookup: the resolved host replaces the field,
/// and a failed lookup (`None`) changes nothing.
pub open spec fn spec_apply_pod_host(e: SentryEventView, host: Option<Seq<char>>) -> SentryEventView {
    match host {
        Some(h) => SentryEventView { source_host: h, ..e },
        None => e,
    }
}

/// The host whose labels would complete this event: the source host, exactly
/// when it is known.
pub open spec fn spec_node_labels_query(e: SentryEventView) -> Option<Seq<char>> {
    if spec_host_known(e) {
        Some(e.source_host)
    } else {
        None
    }
}

/// The event after a node-label lookup: the resolved labels replace the
/// field, and a failed lookup (`None`) changes nothing.
pub open spec fn spec_apply_node_labels(
    e: SentryEventView,
    labels: Option<Seq<(Seq<char>, Seq<char>)>>,
) -> SentryEventView {
    match labels {
        Some(l) => SentryEventView { node_labels: l, ..e },
        None => e,
    }
}

/// Whether the event already names a real originating host.
pub fn host_known(e: &SentryEvent) -> (r: bool)
    ensures
        r == spec_host_known(e@),
{
    !e.source_host.as_str().is_empty() && !str_eq(e.source_host.as_str(), "n/a")
}

/// The name of the pod to look the host up for, if a lookup is due: the
/// host is unknown and the involved object is a pod.
pub fn pod_host_query(e: &SentryEvent) -> (r: Option<String>)
    ensures
        opt_str_view(r) == spec_pod_host_query(e@),
{
    if !host_known(e) {
        match &e.kind {
            Some(k) => if str_eq(k.as_str(), "Pod") {
                Some(e.name.clone())
            } else {
                None
            },
            None => None,
        }
    } else {
        None
    }
}

/// Records the outcome of a pod-host lookup: a resolved host replaces
/// `source_host`; a failed lookup leaves the event untouched.
pub fn apply_pod_host(e: &mut SentryEvent, host: Option<String>)
    ensures
        final(e)@ == spec_apply_pod_host(old(e)@, opt_str_view(host)),
{
    match host {
        Some(h) => {
            e.source_host = h;
        },
        None => {},
    }
}

/// The host to look the labels up for, if a lookup is due: the source host,
/// once it is known.
pub fn node_labels_query(e: &SentryEvent) -> (r: Option<String>)
    ensures
        opt_str_view(r) == spec_node_labels_query(e@),
{
    if host_known(e) {
        Some(e.source_host.clone())
    } else {
        None
    }
}

/// Records the outcome of a node-label lookup: resolved labels replace
/// `node_labels`; a failed lookup leaves the event untouched.
pub fn apply_node_labels(e: &mut SentryEvent, labels: Option<Vec<(String, String)>>)
    ensures
        final(e)@ == spec_apply_node_labels(
            old(e)@,
            match labels {
                Some(l) => Some(pairs_view(l@)),
                None => None,
            },
        ),
{
    match labels {
        Some(l) => {
            e.node_labels = l;
        },
        None => {},
    }
}

} // verus!
