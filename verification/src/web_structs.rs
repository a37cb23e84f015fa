//! Flat, host-safe diagnostic records: the engine's rich diagnostics are
//! flattened into these before the host sees them.

use vstd::prelude::*;

use crate::engine;
use crate::WebWorld;
use vstd::string::StringExecFns;
use vstd::utf8::encode_utf8;

verus! {

/// A half-open byte range `[start, end)` into the document text.
#[derive(Clone, Copy, PartialEq, Eq, Structural, Debug)]
pub struct Span {
    pub start: u32,
    pub end: u32,
}

/// The `Span` a byte-offset pair flattens to, truncating to 32 bits.
pub open spec fn span_of_pair(p: (usize, usize)) -> Span {
    Span { start: p.0 as u32, end: p.1 as u32 }
}

impl Span {
    /// Flatten a byte-offset range into a `Span`, truncating to 32 bits.
    pub fn from_range(range: core::ops::Range<usize>) -> (r: Span)
        ensures
            r == span_of_pair((range.start, range.end)),
    {
        Span {
            start: #[verifier::truncate] (range.start as u32),
            end: #[verifier::truncate] (range.end as u32),
        }
    }

    pub(crate) fn from_pair(p: (usize, usize)) -> (r: Span)
        ensures
            r == span_of_pair(p),
    {
        Span {
            start: #[verifier::truncate] (p.0 as u32),
            end: #[verifier::truncate] (p.1 as u32),
        }
    }
}

/// Whether a diagnostic is fatal or merely advisory.
#[derive(Clone, Copy, PartialEq, Eq, Structural, Debug)]
pub enum SourceDiagnosticSeverity {
    Error,
    Warning,
}

/// The engine's tracepoint, carried over as plain values: a function call
/// with an optional name, a show rule application with a name, or a module
/// import.
#[derive(PartialEq, Eq, Debug)]
pub enum RawTracepoint {
    Call(Option<String>),
    Show(String),
    Import,
}

/// The closed set of tracepoint variants a diagnostic's trace reports.
#[derive(Clone, Copy, PartialEq, Eq, Structural, Debug)]
pub enum TracepointVariant {
    /// A function call.
    Call,
    /// A show rule application.
    Show,
    /// A module import.
    Import,
}

/// A labeled frame in a diagnostic's propagation trace.
/// `name` is always present for show rules, may be present for function
/// calls, and is absent for imports.
#[derive(PartialEq, Eq, Debug)]
pub struct Tracepoint {
    pub variant: TracepointVariant,
    pub name: Option<String>,
}

/// The flat tracepoint a raw engine tracepoint maps to.
pub open spec fn tracepoint_of_raw(raw: RawTracepoint) -> Tracepoint {
    match raw {
        RawTracepoint::Call(name) => Tracepoint { variant: TracepointVariant::Call, name },
        RawTracepoint::Show(name) => Tracepoint {
            variant: TracepointVariant::Show,
            name: Some(name),
        },
        RawTracepoint::Import => Tracepoint { variant: TracepointVariant::Import, name: None },
    }
}

/// The message a tracepoint formats to.
pub open spec fn message_spec(t: Tracepoint) -> Seq<char> {
    match t.variant {
        TracepointVariant::Call => match t.name {
            Some(name) => "error occurred in this call of function `"@ + name@ + "`"@,
            None => "error occurred in this function call"@,
        },
        TracepointVariant::Show => match t.name {
            Some(name) => "error occurred while applying show rule to this "@ + name@,
            None => Seq::<char>::empty(),
        },
        TracepointVariant::Import => "error occurred while importing this module"@,
    }
}

impl Tracepoint {
    /// A show rule tracepoint always carries a name.
    pub open spec fn wf(&self) -> bool {
        self.variant == TracepointVariant::Show ==> self.name is Some
    }

    /// Map a raw engine tracepoint to its flat form, preserving the
    /// optional name.
    pub fn from_typst_tracepoint(raw: RawTracepoint) -> (r: Tracepoint)
        ensures
            r == tracepoint_of_raw(raw),
            r.wf(),
    {
        match raw {
            RawTracepoint::Call(name) => Tracepoint { variant: TracepointVariant::Call, name },
            RawTracepoint::Show(name) => Tracepoint {
                variant: TracepointVariant::Show,
                name: Some(name),
            },
            RawTracepoint::Import => Tracepoint { variant: TracepointVariant::Import, name: None },
        }
    }

    /// Convert the tracepoint into a message.
    pub fn to_message(&self) -> (r: String)
        requires
            self.wf(),
        ensures
            r@ == message_spec(*self),
    {
        match self.variant {
            TracepointVariant::Call => match &self.name {
                Some(name) => String::from_str("error occurred in this call of function `")
                    .concat(name.as_str())
                    .concat("`"),
                None => String::from_str("error occurred in this function call"),
            },
            TracepointVariant::Show => match &self.name {
                Some(name) => String::from_str("error occurred while applying show rule to this ")
                    .concat(name.as_str()),
                None => String::new(),
            },
            TracepointVariant::Import => String::from_str(
                "error occurred while importing this module",
            ),
        }
    }

    pub(crate) fn duplicate(&self) -> (r: Tracepoint)
        ensures
            r == *self,
    {
        Tracepoint {
            variant: self.variant,
            name: match &self.name {
                Some(name) => Some(name.clone()),
                None => None,
            },
        }
    }
}

/// One frame of a diagnostic's trace, with the byte range it points at.
#[derive(PartialEq, Eq, Debug)]
pub struct TraceEntry {
    pub tracepoint: Tracepoint,
    pub span: Span,
}

impl TraceEntry {
    /// Pair a tracepoint with the byte range it points at.
    pub fn new_with_range(tracepoint: Tracepoint, range: core::ops::Range<usize>) -> (r:
        TraceEntry)
        ensures
            r.tracepoint == tracepoint,
            r.span == span_of_pair((range.start, range.end)),
    {
        TraceEntry { span: Span::from_range(range), tracepoint }
    }

    pub(crate) fn duplicate(&self) -> (r: TraceEntry)
        ensures
            r == *self,
    {
        TraceEntry { tracepoint: self.tracepoint.duplicate(), span: self.span }
    }
}

/// An error or warning of a compilation, flattened for the host: severity,
/// byte-range span, message, propagation trace and hints.
#[derive(PartialEq, Eq, Debug)]
pub struct SourceDiagnostic {
    pub severity: SourceDiagnosticSeverity,
    pub span: Span,
    pub message: String,
    pub trace: Vec<TraceEntry>,
    pub hints: Vec<String>,
}

/// The trace entry that a raw tracepoint with a resolved byte range
/// flattens to.
pub open spec fn entry_of_resolved(raw: RawTracepoint, range: (usize, usize)) -> TraceEntry {
    TraceEntry { tracepoint: tracepoint_of_raw(raw), span: span_of_pair(range) }
}

/// A span lies within a document of `limit` bytes.
pub open spec fn span_within(s: Span, limit: nat) -> bool {
    s.start <= s.end && s.end <= limit
}

/// Every diagnostic of the sequence keeps all its spans within a document
/// of `limit` bytes.
pub open spec fn diags_bounded(ds: Seq<SourceDiagnostic>, limit: nat) -> bool {
    forall|i: int| 0 <= i < ds.len() ==> (#[trigger] ds[i]).spans_within(limit)
}

/// Two flat diagnostics carry the same content, field for field.
pub open spec fn diag_like(a: SourceDiagnostic, b: SourceDiagnostic) -> bool {
    &&& a.severity == b.severity
    &&& a.span == b.span
    &&& a.message == b.message
    &&& a.trace@ == b.trace@
    &&& a.hints@ == b.hints@
}

/// Every span the engine diagnostic reports, its own and its trace
/// entries', resolves against the source.
pub open spec fn diag_resolvable(
    source: typst::syntax::Source,
    d: engine::EngineDiagnostic,
) -> bool {
    &&& engine::resolved_range_of(source, engine::span_of(d)) is Some
    &&& forall|i: int|
        0 <= i < engine::trace_of(d).len() ==> engine::resolved_range_of(
            source,
            (#[trigger] engine::trace_of(d)[i]).1,
        ) is Some
}

/// The flat diagnostic is exactly the engine diagnostic translated against
/// the source: severity, message and hints carried over, every span
/// resolved to its byte range and flattened, the trace in order.
pub open spec fn flat_of_engine(
    source: typst::syntax::Source,
    d: engine::EngineDiagnostic,
    f: SourceDiagnostic,
) -> bool {
    &&& f.severity == engine::severity_of(d)
    &&& f.message@ == engine::message_of(d)
    &&& match engine::resolved_range_of(source, engine::span_of(d)) {
        Some(p) => f.span == span_of_pair(p),
        None => false,
    }
    &&& f.trace@.len() == engine::trace_of(d).len()
    &&& forall|i: int|
        0 <= i < engine::trace_of(d).len() ==> match engine::resolved_range_of(
            source,
            engine::trace_of(d)[i].1,
        ) {
            Some(p) => #[trigger] f.trace@[i] == entry_of_resolved(engine::trace_of(d)[i].0, p),
            None => false,
        }
    &&& f.hints.deep_view() == engine::hints_of(d)
}

impl SourceDiagnostic {
    /// Every span of the diagnostic, the trace entries' included, lies
    /// within a document of `limit` bytes.
    pub open spec fn spans_within(&self, limit: nat) -> bool {
        &&& span_within(self.span, limit)
        &&& forall|i: int|
            0 <= i < self.trace@.len() ==> span_within((#[trigger] self.trace@[i]).span, limit)
    }

    /// Assemble a flat diagnostic from already-resolved parts: the severity
    /// and message are kept, every byte range is flattened to a `Span`, the
    /// trace order is preserved, and the hints are copied verbatim.
    pub fn from_resolved_parts(
        severity: SourceDiagnosticSeverity,
        message: String,
        range: (usize, usize),
        trace: &Vec<(RawTracepoint, (usize, usize))>,
        hints: Vec<String>,
    ) -> (r: SourceDiagnostic)
        ensures
            r.severity == severity,
            r.message == message,
            r.span == span_of_pair(range),
            r.hints == hints,
            r.trace@.len() == trace@.len(),
            forall|i: int|
                0 <= i < trace@.len() ==> r.trace@[i] == entry_of_resolved(
                    (#[trigger] trace@[i]).0,
                    trace@[i].1,
                ),
    {
        let mut entries: Vec<TraceEntry> = Vec::new();
        let mut i: usize = 0;
        while i < trace.len()
            invariant
                i <= trace@.len(),
                entries@.len() == i,
                forall|j: int|
                    0 <= j < i ==> entries@[j] == entry_of_resolved(
                        (#[trigger] trace@[j]).0,
                        trace@[j].1,
                    ),
            decreases trace@.len() - i,
        {
            let point = duplicate_raw_tracepoint(&trace[i].0);
            let span = Span::from_pair(trace[i].1);
            entries.push(TraceEntry { tracepoint: Tracepoint::from_typst_tracepoint(point), span });
            i = i + 1;
        }
        SourceDiagnostic { severity, span: Span::from_pair(range), message, trace: entries, hints }
    }

    /// Translate one engine diagnostic against the world it was produced
    /// from: resolve its span and every trace entry's span to byte ranges
    /// in the document text, and flatten the result.  Returns `None` when
    /// the engine reports a span that does not point into the document,
    /// which breaks the contract between engine and adapter.
    pub fn from_source_diagnostic_and_world(
        source_diagnostic: &engine::EngineDiagnostic,
        world: &WebWorld,
    ) -> (r: Option<SourceDiagnostic>)
        ensures
            r is Some <==> diag_resolvable(
                engine::made_source_of(world.main, world.source@),
                *source_diagnostic,
            ),
            r matches Some(d) ==> flat_of_engine(
                engine::made_source_of(world.main, world.source@),
                *source_diagnostic,
                d,
            ),
            r matches Some(d) ==> encode_utf8(world.source@).len() <= u32::MAX ==> d.spans_within(
                encode_utf8(world.source@).len(),
            ),
    {
        let source = engine::make_source(world.main, &world.source);
        SourceDiagnostic::translate_one(&source, source_diagnostic)
    }

    /// Translate one engine diagnostic against an already-built source.
    pub(crate) fn translate_one(
        source: &typst::syntax::Source,
        source_diagnostic: &engine::EngineDiagnostic,
    ) -> (r: Option<SourceDiagnostic>)
        ensures
            r is Some <==> diag_resolvable(*source, *source_diagnostic),
            r matches Some(d) ==> flat_of_engine(*source, *source_diagnostic, d),
            r matches Some(d) ==> encode_utf8(engine::source_text(*source)).len() <= u32::MAX
                ==> d.spans_within(encode_utf8(engine::source_text(*source)).len()),
    {
        let range = match engine::source_range(source, engine::diag_span(source_diagnostic)) {
            Some(range) => range,
            None => {
                return None;
            },
        };
        let raw_trace = engine::diag_trace(source_diagnostic);
        let mut resolved: Vec<(RawTracepoint, (usize, usize))> = Vec::new();
        let mut i: usize = 0;
        while i < raw_trace.len()
            invariant
                i <= raw_trace@.len(),
                raw_trace@ == engine::trace_of(*source_diagnostic),
                resolved@.len() == i,
                forall|j: int|
                    0 <= j < resolved@.len() ==> ((#[trigger] resolved@[j]).1).0 <= resolved@[j].1.1
                        <= encode_utf8(engine::source_text(*source)).len(),
                forall|j: int|
                    0 <= j < i ==> engine::resolved_range_of(
                        *source,
                        engine::trace_of(*source_diagnostic)[j].1,
                    ) == Some((#[trigger] resolved@[j]).1),
                forall|j: int|
                    0 <= j < i ==> (#[trigger] resolved@[j]).0 == engine::trace_of(
                        *source_diagnostic,
                    )[j].0,
            decreases raw_trace@.len() - i,
        {
            let entry_range = match engine::source_range(source, raw_trace[i].1) {
                Some(entry_range) => entry_range,
                None => {
                    proof {
                        assert(engine::resolved_range_of(
                            *source,
                            engine::trace_of(*source_diagnostic)[i as int].1,
                        ) is None);
                    }
                    return None;
                },
            };
            let point = duplicate_raw_tracepoint(&raw_trace[i].0);
            resolved.push((point, entry_range));
            proof {
                assert(raw_trace@[i as int] == engine::trace_of(*source_diagnostic)[i as int]);
                assert(resolved@[i as int] == (
                    engine::trace_of(*source_diagnostic)[i as int].0,
                    entry_range,
                ));
            }
            i = i + 1;
        }
        let flat = SourceDiagnostic::from_resolved_parts(
            engine::diag_severity(source_diagnostic),
            engine::diag_message(source_diagnostic),
            range,
            &resolved,
            engine::diag_hints(source_diagnostic),
        );
        proof {
            assert forall|j: int|
                0 <= j < engine::trace_of(*source_diagnostic).len() implies match engine::resolved_range_of(
                *source,
                (#[trigger] engine::trace_of(*source_diagnostic)[j]).1,
            ) {
                Some(p) => flat.trace@[j] == entry_of_resolved(
                    engine::trace_of(*source_diagnostic)[j].0,
                    p,
                ),
                None => false,
            } by {
                assert(flat.trace@[j] == entry_of_resolved(resolved@[j].0, resolved@[j].1));
                assert(engine::resolved_range_of(
                    *source,
                    engine::trace_of(*source_diagnostic)[j].1,
                ) == Some(resolved@[j].1));
                assert(resolved@[j].0 == engine::trace_of(*source_diagnostic)[j].0);
            }
            if encode_utf8(engine::source_text(*source)).len() <= u32::MAX {
                assert forall|j: int| 0 <= j < flat.trace@.len() implies span_within(
                    (#[trigger] flat.trace@[j]).span,
                    encode_utf8(engine::source_text(*source)).len(),
                ) by {
                    assert(flat.trace@[j] == entry_of_resolved(resolved@[j].0, resolved@[j].1));
                    assert(resolved@[j].1.0 <= resolved@[j].1.1 <= encode_utf8(
                        engine::source_text(*source),
                    ).len());
                }
            }
        }
        Some(flat)
    }

    /// Translate a list of engine diagnostics in order; `None` as soon as
    /// one of them carries an unresolvable span.
    pub(crate) fn translate_list(
        source: &typst::syntax::Source,
        list: &Vec<engine::EngineDiagnostic>,
    ) -> (r: Option<Vec<SourceDiagnostic>>)
        ensures
            r is Some <==> forall|i: int|
                0 <= i < list@.len() ==> diag_resolvable(*source, #[trigger] list@[i]),
            r matches Some(v) ==> v@.len() == list@.len() && forall|i: int|
                0 <= i < list@.len() ==> flat_of_engine(*source, #[trigger] list@[i], v@[i]),
            r matches Some(v) ==> encode_utf8(engine::source_text(*source)).len() <= u32::MAX
                ==> diags_bounded(v@, encode_utf8(engine::source_text(*source)).len()),
    {
        let mut out: Vec<SourceDiagnostic> = Vec::new();
        let mut i: usize = 0;
        while i < list.len()
            invariant
                i <= list@.len(),
                out@.len() == i,
                forall|j: int|
                    0 <= j < i ==> diag_resolvable(*source, #[trigger] list@[j]) && flat_of_engine(
                        *source,
                        list@[j],
                        out@[j],
                    ),
                encode_utf8(engine::source_text(*source)).len() <= u32::MAX ==> diags_bounded(
                    out@,
                    encode_utf8(engine::source_text(*source)).len(),
                ),
            decreases list@.len() - i,
        {
            let flat = match SourceDiagnostic::translate_one(source, &list[i]) {
                Some(flat) => flat,
                None => {
                    return None;
                },
            };
            out.push(flat);
            i = i + 1;
        }
        Some(out)
    }

    pub(crate) fn duplicate(&self) -> (r: SourceDiagnostic)
        ensures
            r.severity == self.severity,
            r.span == self.span,
            r.message == self.message,
            r.trace@ == self.trace@,
            r.hints@ == self.hints@,
    {
        let mut trace: Vec<TraceEntry> = Vec::new();
        let mut i: usize = 0;
        while i < self.trace.len()
            invariant
                i <= self.trace@.len(),
                trace@.len() == i,
                forall|j: int| 0 <= j < i ==> #[trigger] trace@[j] == self.trace@[j],
            decreases self.trace@.len() - i,
        {
            trace.push(self.trace[i].duplicate());
            i = i + 1;
        }
        let mut hints: Vec<String> = Vec::new();
        let mut k: usize = 0;
        while k < self.hints.len()
            invariant
                k <= self.hints@.len(),
                hints@.len() == k,
                forall|j: int| 0 <= j < k ==> #[trigger] hints@[j] == self.hints@[j],
            decreases self.hints@.len() - k,
        {
            hints.push(self.hints[k].clone());
            k = k + 1;
        }
        proof {
            assert(trace@ =~= self.trace@);
            assert(hints@ =~= self.hints@);
        }
        SourceDiagnostic {
            severity: self.severity,
            span: self.span,
            message: self.message.clone(),
            trace,
            hints,
        }
    }
}

pub(crate) fn duplicate_raw_tracepoint(raw: &RawTracepoint) -> (r: RawTracepoint)
    ensures
        r == *raw,
{
    match raw {
        RawTracepoint::Call(name) => RawTracepoint::Call(
            match name {
                Some(name) => Some(name.clone()),
                None => None,
            },
        ),
        RawTracepoint::Show(name) => RawTracepoint::Show(name.clone()),
        RawTracepoint::Import => RawTracepoint::Import,
    }
}

} // verus!
