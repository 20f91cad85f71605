use vstd::prelude::*;

use crate::enrichment::{spec_apply_node_labels, spec_apply_pod_host};
use crate::sentry_event::{
    opt_str_view, opt_ts_view, spec_drop_managed, spec_obj_name, SentryEvent, SentryEventView,
};
use crate::severity::Severity;
use crate::text::pairs_view;

verus! {

/// The outbound wire shape of one alert: what the telemetry sink receives
/// for an event that is to be reported.
#[derive(Debug, PartialEq)]
pub struct AlertPayload {
    /// Tag pairs, each present only when its source field is non-empty, in
    /// the order cluster, component, reason, namespace, name, kind.
    pub tags: Vec<(String, String)>,
    /// The grouping fingerprint: the non-empty ones of reason, namespace,
    /// name, kind, in that order.
    pub fingerprint: Vec<String>,
    /// `namespace/name reason`, or `namespace reason` when the name is empty.
    pub culprit: String,
    /// The event's message, when it carried one.
    pub message: Option<String>,
    /// The originating host, `"n/a"` when unresolved.
    pub server_name: String,
    /// The event's creation instant, when recorded; else the sink defaults.
    pub timestamp: Option<i64>,
    /// The source metadata minus its field-manager bookkeeping.
    pub extra: Vec<(String, String)>,
    /// The event's severity.
    pub level: Severity,
}

/// The mathematical value of an alert payload.
pub struct AlertView {
    pub tags: Seq<(Seq<char>, Seq<char>)>,
    pub fingerprint: Seq<Seq<char>>,
    pub culprit: Seq<char>,
    pub message: Option<Seq<char>>,
    pub server_name: Seq<char>,
    pub timestamp: Option<int>,
    pub extra: Seq<(Seq<char>, Seq<char>)>,
    pub level: Severity,
}

impl View for AlertPayload {
    type V = AlertView;

    open spec fn view(&self) -> AlertView {
        AlertView {
            tags: pairs_view(self.tags@),
            fingerprint: crate::text::strings_view(self.fingerprint@),
            culprit: self.culprit@,
            message: opt_str_view(self.message),
            server_name: self.server_name@,
            timestamp: opt_ts_view(self.timestamp),
            extra: pairs_view(self.extra@),
            level: self.level,
        }
    }
}

/// One lightweight contextual record, kept for every event that is not
/// explicitly suppressed, whatever its severity.
#[derive(Debug, PartialEq)]
pub struct TrailEntry {
    /// The involved object's name.
    pub name: String,
    /// The event's namespace.
    pub namespace: String,
    /// The event's severity.
    pub level: Severity,
    /// The event's message, when it carried one.
    pub message: Option<String>,
    /// The event's creation instant, when recorded.
    pub timestamp: Option<i64>,
}

/// The mathematical value of a trail entry.
pub struct TrailView {
    pub name: Seq<char>,
    pub namespace: Seq<char>,
    pub level: Severity,
    pub message: Option<Seq<char>>,
    pub timestamp: Option<int>,
}

impl View for TrailEntry {
    type V = TrailView;

    open spec fn view(&self) -> TrailView {
        TrailView {
            name: self.name@,
            namespace: self.namespace@,
            level: self.level,
            message: opt_str_view(self.message),
            timestamp: opt_ts_view(self.timestamp),
        }
    }
}

/// The tag pairs of an alert: cluster, component, reason, namespace, name,
/// kind, each included only when its source is non-empty.
pub open spec fn spec_tags(e: SentryEventView, cluster: Seq<char>) -> Seq<(Seq<char>, Seq<char>)> {
    let t0 = Seq::<(Seq<char>, Seq<char>)>::empty();
    let t1 = if cluster.len() > 0 {
        t0.push(("cluster"@, cluster))
    } else {
        t0
    };
    let t2 = if e.component.len() > 0 {
        t1.push(("component"@, e.component))
    } else {
        t1
    };
    let t3 = if e.reason.len() > 0 {
        t2.push(("reason"@, e.reason))
    } else {
        t2
    };
    let t4 = if e.namespace.len() > 0 {
        t3.push(("namespace"@, e.namespace))
    } else {
        t3
    };
    let t5 = if e.name.len() > 0 {
        t4.push(("name"@, e.name))
    } else {
        t4
    };
    match e.kind {
        Some(k) => if k.len() > 0 {
            t5.push(("kind"@, k))
        } else {
            t5
        },
        None => t5,
    }
}

/// The grouping fingerprint of an alert: the non-empty ones of reason,
/// namespace, name, kind, in that order.
pub open spec fn spec_fingerprint(e: SentryEventView) -> Seq<Seq<char>> {
    let f0 = Seq::<Seq<char>>::empty();
    let f1 = if e.reason.len() > 0 {
        f0.push(e.reason)
    } else {
        f0
    };
    let f2 = if e.namespace.len() > 0 {
        f1.push(e.namespace)
    } else {
        f1
    };
    let f3 = if e.name.len() > 0 {
        f2.push(e.name)
    } else {
        f2
    };
    match e.kind {
        Some(k) => if k.len() > 0 {
            f3.push(k)
        } else {
            f3
        },
        None => f3,
    }
}

/// The whole alert payload an event maps to, given the configured cluster
/// name (empty when the tag is to be omitted).
pub open spec fn spec_to_alert(e: SentryEventView, cluster: Seq<char>) -> AlertView {
    AlertView {
        tags: spec_tags(e, cluster),
        fingerprint: spec_fingerprint(e),
        culprit: spec_obj_name(e) + " "@ + e.reason,
        message: e.message,
        server_name: e.source_host,
        timestamp: e.creation_timestamp,
        extra: spec_drop_managed(e.metadata),
        level: e.level,
    }
}

/// The trail entry an event maps to.
pub open spec fn spec_to_trail(e: SentryEventView) -> TrailView {
    TrailView {
        name: e.name,
        namespace: e.namespace,
        level: e.level,
        message: e.message,
        timestamp: e.creation_timestamp,
    }
}

/// Maps a canonical event into the outbound alert shape, exactly as
/// `spec_to_alert` says.
pub fn to_alert(e: &SentryEvent, cluster_name: &str) -> (r: AlertPayload)
    ensures
        r@ == spec_to_alert(e@, cluster_name@),
{
    let mut tags: Vec<(String, String)> = Vec::new();
    let mut fingerprint: Vec<String> = Vec::new();

    if !cluster_name.is_empty() {
        tags.push((String::from_str("cluster"), String::from_str(cluster_name)));
    }
    if !e.component.as_str().is_empty() {
        tags.push((String::from_str("component"), e.component.clone()));
    }
    if !e.reason.as_str().is_empty() {
        tags.push((String::from_str("reason"), e.reason.clone()));
        fingerprint.push(e.reason.clone());
    }
    if !e.namespace.as_str().is_empty() {
        tags.push((String::from_str("namespace"), e.namespace.clone()));
        fingerprint.push(e.namespace.clone());
    }
    if !e.name.as_str().is_empty() {
        tags.push((String::from_str("name"), e.name.clone()));
        fingerprint.push(e.name.clone());
    }
    match &e.kind {
        Some(k) => if !k.as_str().is_empty() {
            tags.push((String::from_str("kind"), k.clone()));
            fingerprint.push(k.clone());
        },
        None => {},
    }
    proof {
        assert(pairs_view(tags@) =~= spec_tags(e@, cluster_name@));
        assert(crate::text::strings_view(fingerprint@) =~= spec_fingerprint(e@));
    }

    let mut culprit = e.obj_name();
    culprit.append(" ");
    culprit.append(e.reason.as_str());

    AlertPayload {
        tags,
        fingerprint,
        culprit,
        message: e.message.clone(),
        server_name: e.source_host.clone(),
        timestamp: e.creation_timestamp,
        extra: e.metadata_map(),
        level: e.level,
    }
}

/// Maps a canonical event into its trail entry, exactly as `spec_to_trail`
/// says.
pub fn to_trail(e: &SentryEvent) -> (r: TrailEntry)
    ensures
        r@ == spec_to_trail(e@),
{
    TrailEntry {
        name: e.name.clone(),
        namespace: e.namespace.clone(),
        level: e.level,
        message: e.message.clone(),
        timestamp: e.creation_timestamp,
    }
}

/// Enrichment fallback: when both lookups fail, the event is unchanged, and
/// so the alert it maps to is identical, in every field, to the alert of the
/// never-enriched event.
pub proof fn lemma_enrichment_fallback(e: SentryEventView, cluster: Seq<char>)
    ensures
        spec_apply_node_labels(spec_apply_pod_host(e, None), None) == e,
        spec_to_alert(spec_apply_node_labels(spec_apply_pod_host(e, None), None), cluster)
            == spec_to_alert(e, cluster),
{
}

} // verus!
