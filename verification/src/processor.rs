use vstd::prelude::*;

use crate::alert::{spec_to_alert, spec_to_trail, to_alert, to_trail, AlertPayload, AlertView,
    TrailEntry, TrailView};
use crate::guard::{admit_event, spec_admits, spec_watermark_after, PipelineState};
use crate::sentry_event::{SentryEvent, SentryEventView};
use crate::severity::{severity_label, Severity};
use crate::text::{contains_str, strings_view};

verus! {

/// Which of the four exclusion rules of the filter chain suppressed an
/// event, in their fixed order of evaluation.
#[derive(Clone, Copy, PartialEq, Eq, Structural, Debug)]
pub enum FilterRule {
    /// The component is on the component exclude-list.
    Component,
    /// The reason is on the reason exclude-list.
    Reason,
    /// The namespace is on the namespace exclude-list.
    NamespaceExcluded,
    /// A namespace allow-list is set and does not hold the namespace.
    NamespaceNotIncluded,
}

/// What became of one event in the pipeline.
#[derive(Clone, Copy, PartialEq, Eq, Structural, Debug)]
pub enum Disposition {
    /// Suppressed by an exclusion rule: no alert, no trail entry.
    Filtered(FilterRule),
    /// Rejected by the arrival-order guard: dropped as stale, trail entry
    /// still recorded.
    Stale,
    /// Admitted but below the alerting severities: trail entry only.
    BelowThreshold,
    /// Admitted and alerted: both alert and trail entry.
    Alerted,
}

/// What the pipeline hands the sinks for one event.
#[derive(Debug, PartialEq)]
pub struct ProcessOutcome {
    /// What became of the event.
    pub disposition: Disposition,
    /// The alert to send, when the event is alerted.
    pub alert: Option<AlertPayload>,
    /// The trail entry to append, for every event not explicitly suppressed.
    pub trail: Option<TrailEntry>,
}

/// The mathematical value of a pipeline outcome.
pub struct OutcomeView {
    pub disposition: Disposition,
    pub alert: Option<AlertView>,
    pub trail: Option<TrailView>,
}

impl View for ProcessOutcome {
    type V = OutcomeView;

    open spec fn view(&self) -> OutcomeView {
        OutcomeView {
            disposition: self.disposition,
            alert: match self.alert {
                Some(a) => Some(a@),
                None => None,
            },
            trail: match self.trail {
                Some(t) => Some(t@),
                None => None,
            },
        }
    }
}

/// The decision core of the pipeline: the immutable filter configuration,
/// loaded once at startup.
pub struct Processor {
    event_namespaces: Vec<String>,
    exclude_components: Vec<String>,
    exclude_reasons: Vec<String>,
    exclude_namespaces: Vec<String>,
    event_levels: Vec<String>,
    cluster_name: String,
}

/// The mathematical value of a processor's configuration.
pub struct ProcessorView {
    pub event_namespaces: Seq<Seq<char>>,
    pub exclude_components: Seq<Seq<char>>,
    pub exclude_reasons: Seq<Seq<char>>,
    pub exclude_namespaces: Seq<Seq<char>>,
    pub event_levels: Seq<Seq<char>>,
    pub cluster_name: Seq<char>,
}

impl View for Processor {
    type V = ProcessorView;

    closed spec fn view(&self) -> ProcessorView {
        ProcessorView {
            event_namespaces: strings_view(self.event_namespaces@),
            exclude_components: strings_view(self.exclude_components@),
            exclude_reasons: strings_view(self.exclude_reasons@),
            exclude_namespaces: strings_view(self.exclude_namespaces@),
            event_levels: strings_view(self.event_levels@),
            cluster_name: self.cluster_name@,
        }
    }
}

/// Collects a processor's configuration, starting from empty lists: no
/// exclusions, no allow-list, no accepted severities, no cluster tag.
pub struct ProcessorBuilder {
    event_namespaces: Vec<String>,
    exclude_components: Vec<String>,
    exclude_reasons: Vec<String>,
    exclude_namespaces: Vec<String>,
    event_levels: Vec<String>,
    cluster_name: String,
}

/// The mathematical value of a builder's configuration so far.
pub closed spec fn builder_view(b: ProcessorBuilder) -> ProcessorView {
    ProcessorView {
        event_namespaces: strings_view(b.event_namespaces@),
        exclude_components: strings_view(b.exclude_components@),
        exclude_reasons: strings_view(b.exclude_reasons@),
        exclude_namespaces: strings_view(b.exclude_namespaces@),
        event_levels: strings_view(b.event_levels@),
        cluster_name: b.cluster_name@,
    }
}

impl ProcessorBuilder {
    fn new() -> (r: ProcessorBuilder)
        ensures
            builder_view(r) == (ProcessorView {
                event_namespaces: Seq::<Seq<char>>::empty(),
                exclude_components: Seq::<Seq<char>>::empty(),
                exclude_reasons: Seq::<Seq<char>>::empty(),
                exclude_namespaces: Seq::<Seq<char>>::empty(),
                event_levels: Seq::<Seq<char>>::empty(),
                cluster_name: Seq::<char>::empty(),
            }),
    {
        let r = ProcessorBuilder {
            event_namespaces: Vec::new(),
            exclude_components: Vec::new(),
            exclude_reasons: Vec::new(),
            exclude_namespaces: Vec::new(),
            event_levels: Vec::new(),
            cluster_name: String::new(),
        };
        proof {
            assert(strings_view(r.event_namespaces@) =~= Seq::<Seq<char>>::empty());
            assert(strings_view(r.exclude_components@) =~= Seq::<Seq<char>>::empty());
            assert(strings_view(r.exclude_reasons@) =~= Seq::<Seq<char>>::empty());
            assert(strings_view(r.exclude_namespaces@) =~= Seq::<Seq<char>>::empty());
            assert(strings_view(r.event_levels@) =~= Seq::<Seq<char>>::empty());
        }
        r
    }

    /// Sets the namespace allow-list and exclude-list.
    #[must_use]
    pub fn event_namespaces(self, included: Vec<String>, exclude: Vec<String>) -> (r:
        ProcessorBuilder)
        ensures
            builder_view(r) == (ProcessorView {
                event_namespaces: strings_view(included@),
                exclude_namespaces: strings_view(exclude@),
                ..builder_view(self)
            }),
    {
        ProcessorBuilder { event_namespaces: included, exclude_namespaces: exclude, ..self }
    }

    /// Sets the component exclude-list.
    #[must_use]
    pub fn event_components(self, exclude: Vec<String>) -> (r: ProcessorBuilder)
        ensures
            builder_view(r) == (ProcessorView {
                exclude_components: strings_view(exclude@),
                ..builder_view(self)
            }),
    {
        ProcessorBuilder { exclude_components: exclude, ..self }
    }

    /// Sets the reason exclude-list.
    #[must_use]
    pub fn event_reasons(self, exclude: Vec<String>) -> (r: ProcessorBuilder)
        ensures
            builder_view(r) == (ProcessorView {
                exclude_reasons: strings_view(exclude@),
                ..builder_view(self)
            }),
    {
        ProcessorBuilder { exclude_reasons: exclude, ..self }
    }

    /// Sets the accepted severity labels.
    #[must_use]
    pub fn event_levels(self, levels: Vec<String>) -> (r: ProcessorBuilder)
        ensures
            builder_view(r) == (ProcessorView {
                event_levels: strings_view(levels@),
                ..builder_view(self)
            }),
    {
        ProcessorBuilder { event_levels: levels, ..self }
    }

    /// Sets the cluster-name tag value; empty means the tag is omitted.
    #[must_use]
    pub fn cluster_name(self, name: String) -> (r: ProcessorBuilder)
        ensures
            builder_view(r) == (ProcessorView { cluster_name: name@, ..builder_view(self) }),
    {
        ProcessorBuilder { cluster_name: name, ..self }
    }

    /// Finishes the builder into a processor with the collected
    /// configuration.
    pub fn build(self) -> (r: Processor)
        ensures
            r@ == builder_view(self),
    {
        Processor {
            event_namespaces: self.event_namespaces,
            exclude_components: self.exclude_components,
            exclude_reasons: self.exclude_reasons,
            exclude_namespaces: self.exclude_namespaces,
            event_levels: self.event_levels,
            cluster_name: self.cluster_name,
        }
    }
}

/// The filter chain: which exclusion rule, in the fixed order component,
/// reason, namespace exclude-list, namespace allow-list, suppresses the
/// event; `None` means the event is a candidate for alerting.
pub open spec fn spec_suppression(cfg: ProcessorView, e: SentryEventView) -> Option<FilterRule> {
    if cfg.exclude_components.contains(e.component) {
        Some(FilterRule::Component)
    } else if cfg.exclude_reasons.contains(e.reason) {
        Some(FilterRule::Reason)
    } else if cfg.exclude_namespaces.contains(e.namespace) {
        Some(FilterRule::NamespaceExcluded)
    } else if cfg.event_namespaces.len() > 0 && !cfg.event_namespaces.contains(e.namespace) {
        Some(FilterRule::NamespaceNotIncluded)
    } else {
        None
    }
}

/// Whether a candidate of this severity is sent as an alert: its label is on
/// the accepted list, or it is `Error`, which always alerts (the deliberate
/// forced-escalation rule).
pub open spec fn spec_alert_worthy(cfg: ProcessorView, level: Severity) -> bool {
    cfg.event_levels.contains(severity_label(level)) || level == Severity::Error
}

/// What the whole pipeline does with one event against one watermark: the
/// outcome handed to the sinks, and the watermark afterwards. Suppressed
/// events get neither alert nor trail entry and never reach the guard; stale
/// events get a trail entry but no alert and leave the watermark alone;
/// admitted events always get a trail entry, and an alert exactly when their
/// severity warrants one.
pub open spec fn spec_process(cfg: ProcessorView, last: Option<int>, e: SentryEventView) -> (
    OutcomeView,
    Option<int>,
) {
    match spec_suppression(cfg, e) {
        Some(rule) => (
            OutcomeView { disposition: Disposition::Filtered(rule), alert: None, trail: None },
            last,
        ),
        None => {
            if !spec_admits(last, e.creation_timestamp) {
                (
                    OutcomeView {
                        disposition: Disposition::Stale,
                        alert: None,
                        trail: Some(spec_to_trail(e)),
                    },
                    last,
                )
            } else {
                let next = spec_watermark_after(last, e.creation_timestamp);
                if spec_alert_worthy(cfg, e.level) {
                    (
                        OutcomeView {
                            disposition: Disposition::Alerted,
                            alert: Some(spec_to_alert(e, cfg.cluster_name)),
                            trail: Some(spec_to_trail(e)),
                        },
                        next,
                    )
                } else {
                    (
                        OutcomeView {
                            disposition: Disposition::BelowThreshold,
                            alert: None,
                            trail: Some(spec_to_trail(e)),
                        },
                        next,
                    )
                }
            }
        },
    }
}

impl Processor {
    /// Starts collecting a processor's configuration.
    pub fn builder() -> (r: ProcessorBuilder)
        ensures
            builder_view(r) == (ProcessorView {
                event_namespaces: Seq::<Seq<char>>::empty(),
                exclude_components: Seq::<Seq<char>>::empty(),
                exclude_reasons: Seq::<Seq<char>>::empty(),
                exclude_namespaces: Seq::<Seq<char>>::empty(),
                event_levels: Seq::<Seq<char>>::empty(),
                cluster_name: Seq::<char>::empty(),
            }),
    {
        ProcessorBuilder::new()
    }

    /// Runs one canonical, already-enriched event through the filter chain,
    /// the arrival-order guard and the sink transform, exactly as
    /// `spec_process` says.
    pub fn process(&self, state: &mut PipelineState, event: &SentryEvent) -> (out: ProcessOutcome)
        ensures
            out@ == spec_process(self@, old(state)@, event@).0,
            final(state)@ == spec_process(self@, old(state)@, event@).1,
    {
        if contains_str(&self.exclude_components, event.component.as_str()) {
            return ProcessOutcome {
                disposition: Disposition::Filtered(FilterRule::Component),
                alert: None,
                trail: None,
            };
        }
        if contains_str(&self.exclude_reasons, event.reason.as_str()) {
            return ProcessOutcome {
                disposition: Disposition::Filtered(FilterRule::Reason),
                alert: None,
                trail: None,
            };
        }
        if contains_str(&self.exclude_namespaces, event.namespace.as_str()) {
            return ProcessOutcome {
                disposition: Disposition::Filtered(FilterRule::NamespaceExcluded),
                alert: None,
                trail: None,
            };
        }
        if self.event_namespaces.len() > 0 && !contains_str(
            &self.event_namespaces,
            event.namespace.as_str(),
        ) {
            return ProcessOutcome {
                disposition: Disposition::Filtered(FilterRule::NamespaceNotIncluded),
                alert: None,
                trail: None,
            };
        }
        if !admit_event(state, event.creation_timestamp) {
            return ProcessOutcome {
                disposition: Disposition::Stale,
                alert: None,
                trail: Some(to_trail(event)),
            };
        }
        let worthy = contains_str(&self.event_levels, event.level.label()) || event.level
            == Severity::Error;
        if worthy {
            ProcessOutcome {
                disposition: Disposition::Alerted,
                alert: Some(to_alert(event, self.cluster_name.as_str())),
                trail: Some(to_trail(event)),
            }
        } else {
            ProcessOutcome {
                disposition: Disposition::BelowThreshold,
                alert: None,
                trail: Some(to_trail(event)),
            }
        }
    }
}

/// Filter precedence: an event whose component is excluded is suppressed
/// outright — no alert, no trail entry, no watermark change — even when its
/// severity is `Error`; exclusion wins over forced escalation.
pub proof fn lemma_exclusion_wins_over_escalation(
    cfg: ProcessorView,
    last: Option<int>,
    e: SentryEventView,
)
    requires
        cfg.exclude_components.contains(e.component),
        e.level == Severity::Error,
    ensures
        spec_process(cfg, last, e).0.disposition == Disposition::Filtered(FilterRule::Component),
        spec_process(cfg, last, e).0.alert is None,
        spec_process(cfg, last, e).0.trail is None,
        spec_process(cfg, last, e).1 == last,
{
}

/// Forced escalation: an admitted `Error`-level event with no matching
/// exclusion is sent as an alert even though its severity label is not on
/// the accepted list.
pub proof fn lemma_forced_escalation(cfg: ProcessorView, last: Option<int>, e: SentryEventView)
    requires
        spec_suppression(cfg, e) is None,
        !cfg.event_levels.contains(severity_label(e.level)),
        e.level == Severity::Error,
        spec_admits(last, e.creation_timestamp),
    ensures
        spec_process(cfg, last, e).0.disposition == Disposition::Alerted,
        spec_process(cfg, last, e).0.alert == Some(spec_to_alert(e, cfg.cluster_name)),
{
}

/// Namespace allow-list exclusivity: when an allow-list is set, an
/// otherwise-passing event in a namespace it does not hold is suppressed —
/// no alert and no trail entry.
pub proof fn lemma_allow_list_exclusive(cfg: ProcessorView, last: Option<int>, e: SentryEventView)
    requires
        cfg.event_namespaces.len() > 0,
        !cfg.event_namespaces.contains(e.namespace),
        !cfg.exclude_components.contains(e.component),
        !cfg.exclude_reasons.contains(e.reason),
        !cfg.exclude_namespaces.contains(e.namespace),
    ensures
        spec_process(cfg, last, e).0.disposition == Disposition::Filtered(
            FilterRule::NamespaceNotIncluded,
        ),
        spec_process(cfg, last, e).0.alert is None,
        spec_process(cfg, last, e).0.trail is None,
        spec_process(cfg, last, e).1 == last,
{
}

} // verus!
