//! Trusted surface over the document engine and its companion crates.
//!
//! Everything in this module is either a declaration of an outside type, a
//! name for a value that an outside call returns, or a thin wrapper whose
//! body makes exactly that call.  The contracts here are what the rest of
//! the crate is verified against.

use vstd::prelude::*;

pub use typst::diag::SourceDiagnostic as EngineDiagnostic;
pub use typst::diag::Tracepoint as EngineTracepoint;
pub use typst::syntax::Span as EngineSpan;
pub use typst_ide::Completion as IdeCompletion;
pub use typst_ide::CompletionKind as IdeCompletionKind;

use crate::web_structs::{RawTracepoint, SourceDiagnosticSeverity};
use crate::web_structs_ide::RawCompletionKind;
use chrono::Datelike;
use vstd::utf8::encode_utf8;

verus! {

#[verifier::external_type_specification]
#[verifier::external_body]
#[verifier::reject_recursive_types(T)]
pub struct ExLazyHash<T: ?Sized>(typst::utils::LazyHash<T>);

#[verifier::external_type_specification]
#[verifier::external_body]
pub struct ExLibrary(typst::Library);

#[verifier::external_type_specification]
#[verifier::external_body]
pub struct ExFontBook(typst::text::FontBook);

#[verifier::external_type_specification]
#[verifier::external_body]
pub struct ExFont(typst::text::Font);

#[verifier::external_type_specification]
#[verifier::external_body]
pub struct ExFontInfo(typst::text::FontInfo);

#[verifier::external_type_specification]
#[verifier::external_body]
pub struct ExFileId(typst::syntax::FileId);

#[verifier::external_type_specification]
#[verifier::external_body]
pub struct ExSource(typst::syntax::Source);

#[verifier::external_type_specification]
#[verifier::external_body]
pub struct ExBytes(typst::foundations::Bytes);

#[verifier::external_type_specification]
#[verifier::external_body]
pub struct ExEngineSpan(EngineSpan);

#[verifier::external_type_specification]
#[verifier::external_body]
pub struct ExPagedDocument(typst::layout::PagedDocument);

#[verifier::external_type_specification]
#[verifier::external_body]
pub struct ExEngineDiagnostic(EngineDiagnostic);

#[verifier::external_type_specification]
#[verifier::external_body]
pub struct ExIdeCompletion(IdeCompletion);

/// The metadata entries a font book holds, in insertion order.
pub uninterp spec fn book_entries(book: typst::utils::LazyHash<typst::text::FontBook>) -> Seq<
    typst::text::FontInfo,
>;

/// The metadata a parsed font carries; a function of the font alone.
pub uninterp spec fn font_info_of(font: typst::text::Font) -> typst::text::FontInfo;

/// Relies on `FontBook::new` and `LazyHash::new`: a freshly created font
/// book holds no entries.
#[verifier::external_body]
pub fn empty_font_book() -> (book: typst::utils::LazyHash<typst::text::FontBook>)
    ensures
        book_entries(book) == Seq::<typst::text::FontInfo>::empty(),
{
    typst::utils::LazyHash::new(typst::text::FontBook::new())
}

/// Relies on `FontBook::push`: appends one metadata entry at the end of the
/// book, keeping all earlier entries in place.
#[verifier::external_body]
pub fn push_font_info(
    book: &mut typst::utils::LazyHash<typst::text::FontBook>,
    info: typst::text::FontInfo,
)
    ensures
        book_entries(*final(book)) == book_entries(*old(book)).push(info),
{
    book.push(info);
}

/// Relies on `Library::default` and `LazyHash::new`: builds the engine's
/// default standard library.
#[verifier::external_body]
pub fn default_library() -> typst::utils::LazyHash<typst::Library> {
    typst::utils::LazyHash::new(typst::Library::default())
}

/// Relies on `FileId::new` and `VirtualPath::new`: the fixed identifier of
/// the single in-memory document.
#[verifier::external_body]
pub fn main_file_id() -> typst::syntax::FileId {
    typst::syntax::FileId::new(None, typst::syntax::VirtualPath::new("/main.typ"))
}

/// The font that a byte resource parses to at face index 0, or `None` for
/// invalid data; a function of the bytes alone.
pub uninterp spec fn parsed_font_of(data: Seq<u8>) -> Option<typst::text::Font>;

/// Relies on `Bytes::new` and `Font::new`: parses the first font face of the
/// given resource, or returns `None` when the bytes are not a valid font.
#[verifier::external_body]
pub fn parse_font(data: &[u8]) -> (r: Option<typst::text::Font>)
    ensures
        r == parsed_font_of(data@),
{
    typst::text::Font::new(typst::foundations::Bytes::new(data.to_vec()), 0)
}

/// Relies on `Font::info`: returns the metadata that the font was parsed
/// with.
#[verifier::external_body]
pub fn font_info(font: &typst::text::Font) -> (info: typst::text::FontInfo)
    ensures
        info == font_info_of(*font),
{
    font.info().clone()
}

/// Relies on `Font::clone`: a font is a shared handle, and its clone is the
/// same font.
pub assume_specification[ <typst::text::Font as Clone>::clone ](font: &typst::text::Font) -> (r:
    typst::text::Font)
    ensures
        r == *font,
;

/// The text a parsed source holds.
pub uninterp spec fn source_text(source: typst::syntax::Source) -> Seq<char>;

/// The parsed source that an identifier and a text build; a function of
/// the two alone.
pub uninterp spec fn made_source_of(id: typst::syntax::FileId, text: Seq<char>) -> typst::syntax::Source;

/// Relies on `Source::new`: builds a parsed source holding exactly the
/// given text under the given identifier.
#[verifier::external_body]
pub fn make_source(id: typst::syntax::FileId, text: &String) -> (source: typst::syntax::Source)
    ensures
        source == made_source_of(id, text@),
        source_text(source) == text@,
{
    typst::syntax::Source::new(id, text.clone())
}

/// The byte range an engine span resolves to in a source, or `None` when
/// the span does not point into it; a function of source and span alone.
pub uninterp spec fn resolved_range_of(source: typst::syntax::Source, span: EngineSpan) -> Option<
    (usize, usize),
>;

/// Relies on `Source::range`: resolves an engine span to the byte range of
/// its syntax node, which lies within the source's text; `None` when the
/// span does not point into this source.
#[verifier::external_body]
pub fn source_range(source: &typst::syntax::Source, span: EngineSpan) -> (r: Option<
    (usize, usize),
>)
    ensures
        r == resolved_range_of(*source, span),
        r matches Some(p) ==> p.0 <= p.1 && p.1 <= encode_utf8(source_text(*source)).len(),
{
    source.range(span).map(|range| (range.start, range.end))
}

/// The severity the engine's diagnostic carries, as the flat two-value
/// taxonomy.
pub uninterp spec fn severity_of(d: EngineDiagnostic) -> SourceDiagnosticSeverity;

/// Relies on the severity field of the engine's diagnostic: exactly two
/// severities exist, and each is carried over one-to-one.
#[verifier::external_body]
pub fn diag_severity(d: &EngineDiagnostic) -> (r: SourceDiagnosticSeverity)
    ensures
        r == severity_of(*d),
{
    match d.severity {
        typst::diag::Severity::Error => SourceDiagnosticSeverity::Error,
        typst::diag::Severity::Warning => SourceDiagnosticSeverity::Warning,
    }
}

/// The message text the engine's diagnostic carries.
pub uninterp spec fn message_of(d: EngineDiagnostic) -> Seq<char>;

/// Relies on the message field of the engine's diagnostic.
#[verifier::external_body]
pub fn diag_message(d: &EngineDiagnostic) -> (r: String)
    ensures
        r@ == message_of(*d),
{
    d.message.as_str().to_owned()
}

/// The span the engine's diagnostic points at.
pub uninterp spec fn span_of(d: EngineDiagnostic) -> EngineSpan;

/// Relies on the span field of the engine's diagnostic.
#[verifier::external_body]
pub fn diag_span(d: &EngineDiagnostic) -> (r: EngineSpan)
    ensures
        r == span_of(*d),
{
    d.span
}

/// The trace the engine's diagnostic carries, outermost first: each
/// entry's tracepoint as plain values, with that entry's own span.
pub uninterp spec fn trace_of(d: EngineDiagnostic) -> Seq<(RawTracepoint, EngineSpan)>;

/// Relies on the trace field of the engine's diagnostic: each entry's
/// tracepoint is carried over variant by variant, with its own span.
#[verifier::external_body]
pub fn diag_trace(d: &EngineDiagnostic) -> (r: Vec<(RawTracepoint, EngineSpan)>)
    ensures
        r@ == trace_of(*d),
{
    d.trace
        .iter()
        .map(|e| {
            let point = match &e.v {
                EngineTracepoint::Call(name) => RawTracepoint::Call(
                    name.as_ref().map(|n| n.as_str().to_owned()),
                ),
                EngineTracepoint::Show(name) => RawTracepoint::Show(name.as_str().to_owned()),
                EngineTracepoint::Import => RawTracepoint::Import,
            };
            (point, e.span)
        })
        .collect()
}

/// The hint texts the engine's diagnostic carries, in order.
pub uninterp spec fn hints_of(d: EngineDiagnostic) -> Seq<Seq<char>>;

/// Relies on the hints field of the engine's diagnostic: each hint is
/// carried over verbatim, in order.
#[verifier::external_body]
pub fn diag_hints(d: &EngineDiagnostic) -> (r: Vec<String>)
    ensures
        r.deep_view() == hints_of(*d),
{
    d.hints.iter().map(|h| h.as_str().to_owned()).collect()
}

/// The bytes a byte buffer holds.
pub uninterp spec fn bytes_data(bytes: typst::foundations::Bytes) -> Seq<u8>;

/// Relies on `Bytes::from_string`: the buffer holds exactly the UTF-8
/// encoding of the given text.
#[verifier::external_body]
pub fn text_bytes(text: &String) -> (bytes: typst::foundations::Bytes)
    ensures
        bytes_data(bytes) == encode_utf8(text@),
{
    typst::foundations::Bytes::from_string(text.clone())
}

/// The number of laid-out pages a compiled document holds.
pub uninterp spec fn page_count_of(doc: typst::layout::PagedDocument) -> nat;

/// Relies on the pages field of the compiled document.
#[verifier::external_body]
pub fn num_pages(doc: &typst::layout::PagedDocument) -> (n: usize)
    ensures
        n == page_count_of(*doc),
{
    doc.pages.len()
}

/// The vector-image markup of the document's first page; a function of
/// the document alone.
pub uninterp spec fn svg_of(doc: typst::layout::PagedDocument) -> Seq<char>;

/// Relies on `typst_svg::svg`: renders the document's first page as
/// vector-image markup.
#[verifier::external_body]
pub fn first_page_svg(doc: &typst::layout::PagedDocument) -> (r: String)
    requires
        page_count_of(*doc) > 0,
    ensures
        r@ == svg_of(*doc),
{
    typst_svg::svg(&doc.pages[0])
}

/// Relies on `Utc::now` and `DateTime::timestamp`: the current instant as
/// Unix seconds.  The value depends on the clock, so nothing is promised
/// of it.
#[verifier::external_body]
pub fn utc_now_seconds() -> i64 {
    chrono::Utc::now().timestamp()
}

/// Relies on `DateTime::with_timezone` and `Local`: the machine's own
/// offset from UTC, in seconds, at the given instant.  The value depends
/// on the environment; a fixed offset always lies strictly within one day,
/// as its constructor enforces.
#[verifier::external_body]
pub fn local_offset_at(secs: i64) -> (r: Option<i32>)
    ensures
        r matches Some(off) ==> -86400 < off < 86400,
{
    chrono::DateTime::<chrono::Utc>::from_timestamp(secs, 0)
        .map(|t| t.with_timezone(&chrono::Local).offset().local_minus_utc())
}

/// The calendar date of a Unix instant, in UTC: a function of the instant
/// alone.
pub uninterp spec fn civil_of(secs: int) -> Option<crate::Date>;

/// The kind the IDE engine's completion carries, as plain values.
pub uninterp spec fn kind_of(c: IdeCompletion) -> RawCompletionKind;

/// Relies on the kind field of the IDE engine's completion: each kind is
/// carried over one-to-one, with the symbol's character payload moved
/// along.
#[verifier::external_body]
pub fn completion_kind(c: &IdeCompletion) -> (r: RawCompletionKind)
    ensures
        r == kind_of(*c),
{
    match &c.kind {
        IdeCompletionKind::Syntax => RawCompletionKind::Syntax,
        IdeCompletionKind::Func => RawCompletionKind::Func,
        IdeCompletionKind::Type => RawCompletionKind::Type,
        IdeCompletionKind::Param => RawCompletionKind::Param,
        IdeCompletionKind::Constant => RawCompletionKind::Constant,
        IdeCompletionKind::Path => RawCompletionKind::Path,
        IdeCompletionKind::Package => RawCompletionKind::Package,
        IdeCompletionKind::Label => RawCompletionKind::Label,
        IdeCompletionKind::Font => RawCompletionKind::Font,
        IdeCompletionKind::Symbol(ch) => RawCompletionKind::Symbol(*ch),
    }
}

/// The label, apply and detail texts the IDE engine's completion carries.
pub uninterp spec fn texts_of(c: IdeCompletion) -> (Seq<char>, Option<Seq<char>>, Option<Seq<char>>);

/// Relies on the label, apply and detail fields of the IDE engine's
/// completion, carried over verbatim.
#[verifier::external_body]
pub fn completion_texts(c: &IdeCompletion) -> (r: (String, Option<String>, Option<String>))
    ensures
        r.0@ == texts_of(*c).0,
        r.1.deep_view() == texts_of(*c).1,
        r.2.deep_view() == texts_of(*c).2,
{
    (
        c.label.as_str().to_owned(),
        c.apply.as_ref().map(|s| s.as_str().to_owned()),
        c.detail.as_ref().map(|s| s.as_str().to_owned()),
    )
}

/// Relies on `DateTime::from_timestamp` and the `Datelike` accessors:
/// the proleptic Gregorian date of the given Unix instant, with the month
/// and day numbers starting from 1 and bounded as `Datelike` documents;
/// `None` when the instant lies outside the representable range.
#[verifier::external_body]
pub fn civil_from_unix(secs: i64) -> (r: Option<crate::Date>)
    ensures
        r == civil_of(secs as int),
        r matches Some(d) ==> d.wf(),
{
    chrono::DateTime::<chrono::Utc>::from_timestamp(secs, 0).map(
        |t| crate::Date { year: t.year(), month: t.month() as u8, day: t.day() as u8 },
    )
}

} // verus!
