use vstd::prelude::*;

use crate::severity::{parse_severity, spec_parse_severity, Severity};
use crate::text::{lower_of, lowercase, pairs_view, str_eq};

verus! {

/// One unprocessed notification from the cluster event source, reduced to the
/// plain fields the pipeline reads. The caller converts the source system's
/// native shape into this record; metadata comes as ordered key/value pairs
/// whose values are already rendered as strings.
pub struct RawEvent {
    pub kind: Option<String>,
    pub source_component: Option<String>,
    pub source_host: Option<String>,
    pub reason: Option<String>,
    pub object_kind: Option<String>,
    pub object_name: Option<String>,
    pub object_namespace: Option<String>,
    pub metadata_namespace: Option<String>,
    pub creation_timestamp: Option<i64>,
    pub message: Option<String>,
    pub metadata: Vec<(String, String)>,
}

/// The mathematical value of a raw event.
pub struct RawEventView {
    pub kind: Option<Seq<char>>,
    pub source_component: Option<Seq<char>>,
    pub source_host: Option<Seq<char>>,
    pub reason: Option<Seq<char>>,
    pub object_kind: Option<Seq<char>>,
    pub object_name: Option<Seq<char>>,
    pub object_namespace: Option<Seq<char>>,
    pub metadata_namespace: Option<Seq<char>>,
    pub creation_timestamp: Option<int>,
    pub message: Option<Seq<char>>,
    pub metadata: Seq<(Seq<char>, Seq<char>)>,
}

/// The view of an optional string.
pub open spec fn opt_str_view(o: Option<String>) -> Option<Seq<char>> {
    match o {
        Some(s) => Some(s@),
        None => None,
    }
}

/// The view of an optional timestamp.
pub open spec fn opt_ts_view(o: Option<i64>) -> Option<int> {
    match o {
        Some(t) => Some(t as int),
        None => None,
    }
}

impl View for RawEvent {
    type V = RawEventView;

    open spec fn view(&self) -> RawEventView {
        RawEventView {
            kind: opt_str_view(self.kind),
            source_component: opt_str_view(self.source_component),
            source_host: opt_str_view(self.source_host),
            reason: opt_str_view(self.reason),
            object_kind: opt_str_view(self.object_kind),
            object_name: opt_str_view(self.object_name),
            object_namespace: opt_str_view(self.object_namespace),
            metadata_namespace: opt_str_view(self.metadata_namespace),
            creation_timestamp: opt_ts_view(self.creation_timestamp),
            message: opt_str_view(self.message),
            metadata: pairs_view(self.metadata@),
        }
    }
}

/// The canonical internal representation of one cluster event.
#[derive(Debug, PartialEq)]
pub struct SentryEvent {
    /// The lowercased classification of the event.
    pub type_: String,
    /// The severity derived from `type_`.
    pub level: Severity,
    /// The reporting component; empty when unknown.
    pub component: String,
    /// The originating host; `"n/a"` when the source named none.
    pub source_host: String,
    /// The event's reason; empty when unknown.
    pub reason: String,
    /// The source object metadata as ordered key/value pairs.
    pub metadata: Vec<(String, String)>,
    /// The namespace the event belongs to; never empty.
    pub namespace: String,
    /// The kind of the involved object, when the source named one.
    pub kind: Option<String>,
    /// The name of the involved object; empty when unknown.
    pub name: String,
    /// The event's message, when the source carried one.
    pub message: Option<String>,
    /// The event's recorded creation instant, in seconds; absence skips the
    /// arrival-order guard.
    pub creation_timestamp: Option<i64>,
    /// The labels of the originating host; empty until enrichment succeeds.
    pub node_labels: Vec<(String, String)>,
}

/// The mathematical value of a canonical event.
pub struct SentryEventView {
    pub type_: Seq<char>,
    pub level: Severity,
    pub component: Seq<char>,
    pub source_host: Seq<char>,
    pub reason: Seq<char>,
    pub metadata: Seq<(Seq<char>, Seq<char>)>,
    pub namespace: Seq<char>,
    pub kind: Option<Seq<char>>,
    pub name: Seq<char>,
    pub message: Option<Seq<char>>,
    pub creation_timestamp: Option<int>,
    pub node_labels: Seq<(Seq<char>, Seq<char>)>,
}

impl View for SentryEvent {
    type V = SentryEventView;

    open spec fn view(&self) -> SentryEventView {
        SentryEventView {
            type_: self.type_@,
            level: self.level,
            component: self.component@,
            source_host: self.source_host@,
            reason: self.reason@,
            metadata: pairs_view(self.metadata@),
            namespace: self.namespace@,
            kind: opt_str_view(self.kind),
            name: self.name@,
            message: opt_str_view(self.message),
            creation_timestamp: opt_ts_view(self.creation_timestamp),
            node_labels: pairs_view(self.node_labels@),
        }
    }
}

/// A well-formed canonical event: the namespace is never empty.
pub open spec fn wf_event(e: SentryEventView) -> bool {
    e.namespace.len() > 0
}

/// A raw event whose kind maps to no known severity: the event is rejected
/// rather than guessed at.
#[derive(Debug, PartialEq)]
pub struct NormalizeError {
    /// The lowercased kind that could not be mapped.
    pub event_kind: String,
}

/// The mathematical value of a normalization error.
pub struct NormalizeErrorView {
    pub event_kind: Seq<char>,
}

impl View for NormalizeError {
    type V = NormalizeErrorView;

    open spec fn view(&self) -> NormalizeErrorView {
        NormalizeErrorView { event_kind: self.event_kind@ }
    }
}

/// The characters the severity is derived from: the raw kind, or nothing
/// when the source carried none.
pub open spec fn spec_kind_source(raw: RawEventView) -> Seq<char> {
    match raw.kind {
        Some(k) => k,
        None => Seq::empty(),
    }
}

/// The namespace a metadata namespace alone yields.
pub open spec fn spec_meta_namespace(meta_ns: Option<Seq<char>>) -> Seq<char> {
    match meta_ns {
        Some(ns) => if ns.len() > 0 {
            ns
        } else {
            "default"@
        },
        None => "default"@,
    }
}

/// The event's namespace: the involved object's, else the metadata's, else
/// `"default"`; an empty string counts as unspecified.
pub open spec fn spec_namespace_of(
    obj_ns: Option<Seq<char>>,
    meta_ns: Option<Seq<char>>,
) -> Seq<char> {
    match obj_ns {
        Some(ns) => if ns.len() > 0 {
            ns
        } else {
            spec_meta_namespace(meta_ns)
        },
        None => spec_meta_namespace(meta_ns),
    }
}

/// An optional string, or empty when absent.
pub open spec fn spec_or_empty(o: Option<Seq<char>>) -> Seq<char> {
    match o {
        Some(s) => s,
        None => Seq::empty(),
    }
}

/// What normalization yields: the canonical event with every defaulted and
/// derived field, or the unrecognized lowercased kind.
pub open spec fn spec_normalize(raw: RawEventView) -> Result<SentryEventView, NormalizeErrorView> {
    let lc = lower_of(spec_kind_source(raw));
    match spec_parse_severity(lc) {
        Some(level) => Ok(
            SentryEventView {
                type_: lc,
                level: level,
                component: spec_or_empty(raw.source_component),
                source_host: match raw.source_host {
                    Some(h) => h,
                    None => "n/a"@,
                },
                reason: spec_or_empty(raw.reason),
                metadata: raw.metadata,
                namespace: spec_namespace_of(raw.object_namespace, raw.metadata_namespace),
                kind: raw.object_kind,
                name: spec_or_empty(raw.object_name),
                message: raw.message,
                creation_timestamp: raw.creation_timestamp,
                node_labels: Seq::empty(),
            },
        ),
        None => Err(NormalizeErrorView { event_kind: lc }),
    }
}

/// The view of a normalization result.
pub open spec fn normalize_result_view(
    r: Result<SentryEvent, NormalizeError>,
) -> Result<SentryEventView, NormalizeErrorView> {
    match r {
        Ok(e) => Ok(e@),
        Err(x) => Err(x@),
    }
}

/// An optional string, or the empty string when absent.
fn or_empty(o: Option<String>) -> (r: String)
    ensures
        r@ == spec_or_empty(opt_str_view(o)),
{
    match o {
        Some(s) => s,
        None => String::new(),
    }
}

/// The event's namespace from the two places the source may name one.
fn namespace_of(obj_ns: Option<String>, meta_ns: Option<String>) -> (r: String)
    ensures
        r@ == spec_namespace_of(opt_str_view(obj_ns), opt_str_view(meta_ns)),
        r@.len() > 0,
{
    proof {
        reveal_strlit("default");
    }
    let fallback = match meta_ns {
        Some(ns) => if !ns.as_str().is_empty() {
            ns
        } else {
            String::from_str("default")
        },
        None => String::from_str("default"),
    };
    match obj_ns {
        Some(ns) => if !ns.as_str().is_empty() {
            ns
        } else {
            fallback
        },
        None => fallback,
    }
}

/// Converts one raw event into a canonical event, defaulting every missing
/// optional field as documented on `SentryEvent`; succeeds exactly when the
/// lowercased kind maps to a known severity, and otherwise rejects the event
/// with that kind.
pub fn normalize(raw: RawEvent) -> (r: Result<SentryEvent, NormalizeError>)
    ensures
        normalize_result_view(r) == spec_normalize(raw@),
        r is Ok <==> spec_parse_severity(lower_of(spec_kind_source(raw@))) is Some,
        r is Ok ==> wf_event(r->Ok_0@),
{
    let RawEvent {
        kind,
        source_component,
        source_host,
        reason,
        object_kind,
        object_name,
        object_namespace,
        metadata_namespace,
        creation_timestamp,
        message,
        metadata,
    } = raw;
    let kind_source: String = match kind {
        Some(k) => k,
        None => String::new(),
    };
    let lc = lowercase(kind_source.as_str());
    match parse_severity(lc.as_str()) {
        Some(level) => {
            let namespace = namespace_of(object_namespace, metadata_namespace);
            let host = match source_host {
                Some(h) => h,
                None => String::from_str("n/a"),
            };
            let node_labels: Vec<(String, String)> = Vec::new();
            proof {
                assert(pairs_view(node_labels@) =~= Seq::<(Seq<char>, Seq<char>)>::empty());
            }
            Ok(
                SentryEvent {
                    type_: lc,
                    level,
                    component: or_empty(source_component),
                    source_host: host,
                    reason: or_empty(reason),
                    metadata,
                    namespace,
                    kind: object_kind,
                    name: or_empty(object_name),
                    message,
                    creation_timestamp,
                    node_labels,
                },
            )
        },
        None => Err(NormalizeError { event_kind: lc }),
    }
}

/// The object the event speaks of, as `namespace/name`, or the namespace
/// alone when either part is empty.
pub open spec fn spec_obj_name(e: SentryEventView) -> Seq<char> {
    if e.namespace.len() > 0 && e.name.len() > 0 {
        e.namespace + "/"@ + e.name
    } else {
        e.namespace
    }
}

/// The pairs of `s` whose key is not `"managedFields"`, in order: the source
/// metadata minus its field-manager bookkeeping.
pub open spec fn spec_drop_managed(
    s: Seq<(Seq<char>, Seq<char>)>,
) -> Seq<(Seq<char>, Seq<char>)>
    decreases s.len(),
{
    if s.len() == 0 {
        Seq::empty()
    } else {
        let rest = spec_drop_managed(s.drop_last());
        if s.last().0 != "managedFields"@ {
            rest.push(s.last())
        } else {
            rest
        }
    }
}

impl SentryEvent {
    /// The `namespace/name` label of the involved object.
    pub fn obj_name(&self) -> (r: String)
        ensures
            r@ == spec_obj_name(self@),
    {
        if !self.namespace.as_str().is_empty() && !self.name.as_str().is_empty() {
            let mut s = self.namespace.clone();
            s.append("/");
            s.append(self.name.as_str());
            s
        } else {
            self.namespace.clone()
        }
    }

    /// The event's metadata pairs without the `"managedFields"` entry.
    pub fn metadata_map(&self) -> (r: Vec<(String, String)>)
        ensures
            pairs_view(r@) == spec_drop_managed(self@.metadata),
    {
        let mut out: Vec<(String, String)> = Vec::new();
        let mut i: usize = 0;
        while i < self.metadata.len()
            invariant
                i <= self.metadata@.len(),
                pairs_view(out@) == spec_drop_managed(pairs_view(self.metadata@).take(i as int)),
            decreases self.metadata@.len() - i,
        {
            let keep = !str_eq(self.metadata[i].0.as_str(), "managedFields");
            proof {
                let prefix = pairs_view(self.metadata@).take(i as int);
                let next = pairs_view(self.metadata@).take(i as int + 1);
                assert(next.drop_last() =~= prefix);
                assert(next.last() == (self.metadata@[i as int].0@, self.metadata@[i as int].1@));
            }
            if keep {
                let k = self.metadata[i].0.clone();
                let v = self.metadata[i].1.clone();
                out.push((k, v));
                proof {
                    assert(pairs_view(out@) =~= spec_drop_managed(
                        pairs_view(self.metadata@).take(i as int + 1),
                    ));
                }
            } else {
                proof {
                    assert(pairs_view(out@) =~= spec_drop_managed(
                        pairs_view(self.metadata@).take(i as int + 1),
                    ));
                }
            }
            i += 1;
        }
        proof {
            assert(pairs_view(self.metadata@).take(self.metadata@.len() as int) =~= pairs_view(
                self.metadata@,
            ));
        }
        out
    }
}

/// Normalization is a pure function of the raw event: two normalizations of
/// the same raw event yield the same result in every field.
pub proof fn lemma_normalize_deterministic(
    raw: RawEventView,
    r1: Result<SentryEventView, NormalizeErrorView>,
    r2: Result<SentryEventView, NormalizeErrorView>,
)
    requires
        r1 == spec_normalize(raw),
        r2 == spec_normalize(raw),
    ensures
        r1 == r2,
{
}

} // verus!
