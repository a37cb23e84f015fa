//! A host-environment adapter for the Typst document engine.
//!
//! The engine needs a "world": source text, fonts, a standard library and a
//! notion of the current date.  [`WebWorld`] keeps that state as plain
//! in-memory values, drives one compilation cycle at a time, and translates
//! the engine's diagnostics and completions into flat, host-safe records.

use vstd::prelude::*;

pub mod engine;
pub mod web_structs;
pub mod web_structs_ide;

use crate::engine::{book_entries, civil_of, font_info_of, page_count_of};
use crate::web_structs::{diag_like, diag_resolvable, diags_bounded, flat_of_engine, SourceDiagnostic};
use vstd::utf8::encode_utf8;

verus! {

/// A calendar date of the proleptic Gregorian calendar, with month and day
/// numbered from 1.
#[derive(Clone, Copy, PartialEq, Eq, Structural, Debug)]
pub struct Date {
    pub year: i32,
    pub month: u8,
    pub day: u8,
}

impl Date {
    /// Month and day numbers lie in their calendar ranges.
    pub open spec fn wf(&self) -> bool {
        1 <= self.month <= 12 && 1 <= self.day <= 31
    }
}

/// The error returned when font data cannot be parsed as a font resource.
#[derive(Clone, Copy, PartialEq, Eq, Structural, Debug)]
pub enum FontError {
    /// The bytes do not hold a valid font face at index 0.
    InvalidData,
}

/// The error returned when the engine reports a diagnostic whose span does
/// not resolve against the document it was compiled from.  This breaks the
/// contract between engine and adapter, so the outcome is discarded rather
/// than patched.
#[derive(Clone, Copy, PartialEq, Eq, Structural, Debug)]
pub enum TranslateError {
    UnresolvableSpan,
}

/// The date an explicit offset resolves to from a captured instant: the
/// offset must name less than a full day of hours, and the date is the
/// civil date of the shifted instant.
pub open spec fn today_with_offset_spec(now: i64, hours: i64) -> Option<Date> {
    if -24 < hours < 24 {
        if i64::MIN <= now + hours * 3600 <= i64::MAX {
            civil_of(now + hours * 3600)
        } else {
            None
        }
    } else {
        None
    }
}

/// Every diagnostic the engine handed back, in the failure list and in the
/// warning list, carries only spans that resolve against the source.
pub open spec fn outcome_translatable(
    source: typst::syntax::Source,
    output: Result<typst::layout::PagedDocument, Vec<engine::EngineDiagnostic>>,
    warnings: Vec<engine::EngineDiagnostic>,
) -> bool {
    &&& forall|i: int|
        0 <= i < warnings@.len() ==> diag_resolvable(source, #[trigger] warnings@[i])
    &&& match output {
        Ok(_) => true,
        Err(list) => forall|i: int|
            0 <= i < list@.len() ==> diag_resolvable(source, #[trigger] list@[i]),
    }
}

/// The environment a compilation session operates over: the single
/// in-memory document, the loaded fonts with their metadata catalog, the
/// instant captured at the start of the last compilation, and the cached
/// outcome of that compilation.
pub struct WebWorld {
    /// The full text of the single in-memory document, host-owned.
    pub source: String,
    pub library: typst::utils::LazyHash<typst::Library>,
    pub fonts: Vec<typst::text::Font>,
    pub book: typst::utils::LazyHash<typst::text::FontBook>,
    pub main: typst::syntax::FileId,
    /// Unix seconds captured when the last compilation began; `None` before
    /// the first compilation.
    pub now: Option<i64>,
    /// The last compilation's outcome: the laid-out document on success, or
    /// the flattened error diagnostics on failure.  `None` before the first
    /// compilation.
    pub compilation_output: Option<Result<typst::layout::PagedDocument, Vec<SourceDiagnostic>>>,
    /// The flattened warnings of the last compilation.
    pub compilation_warnings: Vec<SourceDiagnostic>,
}

impl WebWorld {
    /// The font metadata catalog stays in lock-step with the loaded fonts:
    /// same length, and entry `i` describes font `i`.
    pub open spec fn wf(&self) -> bool {
        &&& book_entries(self.book).len() == self.fonts@.len()
        &&& forall|i: int|
            0 <= i < self.fonts@.len() ==> book_entries(self.book)[i] == font_info_of(
                self.fonts@[i],
            )
    }

    /// Create a new world with an empty document, no fonts, and nothing
    /// compiled yet.
    pub fn new() -> (world: WebWorld)
        ensures
            world.wf(),
            world.source@ == Seq::<char>::empty(),
            world.fonts@ == Seq::<typst::text::Font>::empty(),
            world.now is None,
            world.compilation_output is None,
            world.compilation_warnings@ == Seq::<SourceDiagnostic>::empty(),
    {
        WebWorld {
            source: String::new(),
            library: engine::default_library(),
            fonts: Vec::new(),
            book: engine::empty_font_book(),
            main: engine::main_file_id(),
            now: None,
            compilation_output: None,
            compilation_warnings: Vec::new(),
        }
    }

    /// Add a font via its binary data.  On success the font and its
    /// metadata are appended together; on failure nothing changes.
    pub fn add_font(&mut self, data: &[u8]) -> (result: Result<(), FontError>)
        requires
            old(self).wf(),
        ensures
            final(self).wf(),
            result is Ok <==> engine::parsed_font_of(data@) is Some,
            result is Ok ==> match engine::parsed_font_of(data@) {
                Some(f) => final(self).fonts@ == old(self).fonts@.push(f),
                None => false,
            },
            result is Err ==> final(self).fonts@ == old(self).fonts@ && final(self).book == old(
                self,
            ).book,
            final(self).source == old(self).source,
            final(self).now == old(self).now,
            final(self).main == old(self).main,
            final(self).library == old(self).library,
            final(self).compilation_output == old(self).compilation_output,
            final(self).compilation_warnings == old(self).compilation_warnings,
    {
        match engine::parse_font(data) {
            Some(font) => {
                let info = engine::font_info(&font);
                self.fonts.push(font);
                engine::push_font_info(&mut self.book, info);
                Ok(())
            },
            None => Err(FontError::InvalidData),
        }
    }

    /// Get errors from the previous compilation: the flattened failure
    /// list when the last compilation failed, and an empty sequence
    /// otherwise.  Warnings are never reflected here.
    pub fn errors(&self) -> (r: Vec<SourceDiagnostic>)
        ensures
            match self.compilation_output {
                Some(Err(list)) => r@.len() == list@.len() && forall|i: int|
                    0 <= i < list@.len() ==> diag_like(#[trigger] r@[i], list@[i]),
                _ => r@ == Seq::<SourceDiagnostic>::empty(),
            },
    {
        match &self.compilation_output {
            Some(output) => match output {
                Err(list) => duplicate_diags(list),
                Ok(_) => Vec::new(),
            },
            None => Vec::new(),
        }
    }

    /// Get warnings from the previous compilation; empty before the first
    /// compilation.
    pub fn warnings(&self) -> (r: Vec<SourceDiagnostic>)
        ensures
            r@.len() == self.compilation_warnings@.len(),
            forall|i: int|
                0 <= i < self.compilation_warnings@.len() ==> diag_like(
                    #[trigger] r@[i],
                    self.compilation_warnings@[i],
                ),
    {
        duplicate_diags(&self.compilation_warnings)
    }

    /// Capture the instant a compilation starts at.  Every date query of
    /// that compilation is answered from this frozen value, so the date
    /// never drifts while the engine runs.
    pub fn begin_compile(&mut self)
        requires
            old(self).wf(),
        ensures
            final(self).wf(),
            final(self).now is Some,
            final(self).source == old(self).source,
            final(self).fonts@ == old(self).fonts@,
            final(self).book == old(self).book,
            final(self).main == old(self).main,
            final(self).library == old(self).library,
            final(self).compilation_output == old(self).compilation_output,
            final(self).compilation_warnings == old(self).compilation_warnings,
    {
        self.now = Some(engine::utc_now_seconds());
    }

    /// Store one compilation's outcome, replacing any prior outcome
    /// wholesale: the laid-out document is kept as-is, and failure
    /// diagnostics as well as warnings are flattened against the current
    /// document text.  When the engine hands back a span that does not
    /// resolve, nothing is stored and the fault is reported.
    pub fn store_compile_outcome(
        &mut self,
        output: Result<typst::layout::PagedDocument, Vec<engine::EngineDiagnostic>>,
        warnings: Vec<engine::EngineDiagnostic>,
    ) -> (r: Result<(), TranslateError>)
        requires
            old(self).wf(),
        ensures
            final(self).wf(),
            final(self).source == old(self).source,
            final(self).fonts@ == old(self).fonts@,
            final(self).book == old(self).book,
            final(self).main == old(self).main,
            final(self).now == old(self).now,
            final(self).library == old(self).library,
            r is Ok <==> outcome_translatable(
                engine::made_source_of(old(self).main, old(self).source@),
                output,
                warnings,
            ),
            r is Err ==> final(self).compilation_output == old(self).compilation_output
                && final(self).compilation_warnings == old(self).compilation_warnings,
            r is Ok ==> (final(self).compilation_output matches Some(Ok(_)) <==> output is Ok),
            r is Ok ==> match output {
                Ok(doc) => final(self).compilation_output matches Some(Ok(stored)) && stored
                    == doc,
                Err(list) => final(self).compilation_output matches Some(Err(flat)) && flat@.len()
                    == list@.len() && (forall|i: int|
                    0 <= i < list@.len() ==> flat_of_engine(
                        engine::made_source_of(old(self).main, old(self).source@),
                        #[trigger] list@[i],
                        flat@[i],
                    )) && (encode_utf8(old(self).source@).len() <= u32::MAX ==> diags_bounded(
                    flat@,
                    encode_utf8(old(self).source@).len(),
                )),
            },
            r is Ok ==> final(self).compilation_warnings@.len() == warnings@.len() && (forall|
                i: int,
            |
                0 <= i < warnings@.len() ==> flat_of_engine(
                    engine::made_source_of(old(self).main, old(self).source@),
                    #[trigger] warnings@[i],
                    final(self).compilation_warnings@[i],
                )) && (encode_utf8(old(self).source@).len() <= u32::MAX ==> diags_bounded(
                final(self).compilation_warnings@,
                encode_utf8(old(self).source@).len(),
            )),
    {
        let source = engine::make_source(self.main, &self.source);
        let flat_warnings = match SourceDiagnostic::translate_list(&source, &warnings) {
            Some(flat_warnings) => flat_warnings,
            None => {
                return Err(TranslateError::UnresolvableSpan);
            },
        };
        match output {
            Ok(doc) => {
                self.compilation_output = Some(Ok(doc));
                self.compilation_warnings = flat_warnings;
                Ok(())
            },
            Err(list) => {
                let flat = match SourceDiagnostic::translate_list(&source, &list) {
                    Some(flat) => flat,
                    None => {
                        return Err(TranslateError::UnresolvableSpan);
                    },
                };
                self.compilation_output = Some(Err(flat));
                self.compilation_warnings = flat_warnings;
                Ok(())
            },
        }
    }

    /// Return the vector-image markup of the first page of the compiled
    /// document: a value exactly when the last compilation succeeded and
    /// laid out at least one page, and `None` otherwise.
    pub fn render_svg(&self) -> (r: Option<String>)
        ensures
            r is Some <==> (self.compilation_output matches Some(Ok(doc)) && page_count_of(doc)
                > 0),
            match self.compilation_output {
                Some(Ok(doc)) => r matches Some(s) ==> s@ == engine::svg_of(doc),
                _ => r is None,
            },
    {
        match &self.compilation_output {
            Some(output) => match output {
                Ok(doc) => {
                    if engine::num_pages(doc) > 0 {
                        Some(engine::first_page_svg(doc))
                    } else {
                        None
                    }
                },
                Err(_) => None,
            },
            None => None,
        }
    }

    /// Resolve "today" from the instant captured at the start of the last
    /// compilation, shifted by the given fixed offset in hours (or by the
    /// machine's own offset when none is given).  `None` before the first
    /// compilation, and `None` when the offset does not name a time zone.
    /// For a fixed captured instant and explicit offset the result is one
    /// fixed date: it is derived from the frozen instant alone, never from
    /// a live clock.
    pub fn today(&self, offset: Option<i64>) -> (r: Option<Date>)
        ensures
            self.now is None ==> r is None,
            match (self.now, offset) {
                (Some(now), Some(hours)) => r == today_with_offset_spec(now, hours),
                _ => true,
            },
            match (self.now, offset) {
                (Some(now), None) => r is Some ==> exists|off: int|
                    -86400 < off < 86400 && r == #[trigger] civil_of(now + off),
                _ => true,
            },
            r matches Some(d) ==> d.wf(),
    {
        let now = match self.now {
            Some(now) => now,
            None => {
                return None;
            },
        };
        let seconds: i64 = match offset {
            Some(hours) => {
                if hours <= -24 || hours >= 24 {
                    return None;
                }
                hours * 3600
            },
            None => {
                match engine::local_offset_at(now) {
                    Some(off) => off as i64,
                    None => {
                        return None;
                    },
                }
            },
        };
        let shifted = match now.checked_add(seconds) {
            Some(shifted) => shifted,
            None => {
                return None;
            },
        };
        let r = engine::civil_from_unix(shifted);
        proof {
            if offset is None && r is Some {
                assert(-86400 < (seconds as int) < 86400 && r == civil_of(
                    now as int + seconds as int,
                ));
            }
        }
        r
    }

    /// The laid-out artifact of the last compilation, when it succeeded;
    /// `None` after a failure and before the first compilation.
    pub fn artifact(&self) -> (r: Option<&typst::layout::PagedDocument>)
        ensures
            match self.compilation_output {
                Some(Ok(doc)) => r matches Some(d) && *d == doc,
                _ => r is None,
            },
    {
        match &self.compilation_output {
            Some(output) => match output {
                Ok(doc) => Some(doc),
                Err(_) => None,
            },
            None => None,
        }
    }

    /// Bounds-checked lookup of a loaded font by its stable index:
    /// `None` past the end rather than a failure.
    pub fn font(&self, index: usize) -> (r: Option<typst::text::Font>)
        ensures
            index < self.fonts@.len() ==> r == Some(self.fonts@[index as int]),
            index >= self.fonts@.len() ==> r is None,
    {
        if index < self.fonts.len() {
            Some(self.fonts[index].clone())
        } else {
            None
        }
    }

    /// The standard library the engine compiles against.
    pub fn library(&self) -> (r: &typst::utils::LazyHash<typst::Library>)
        ensures
            *r == self.library,
    {
        &self.library
    }

    /// The font metadata catalog, mirroring the loaded fonts' order.
    pub fn book(&self) -> (r: &typst::utils::LazyHash<typst::text::FontBook>)
        ensures
            *r == self.book,
    {
        &self.book
    }

    /// The fixed identifier of the single in-memory document.
    pub fn main(&self) -> (r: typst::syntax::FileId)
        ensures
            r == self.main,
    {
        self.main
    }

    /// Resolve a source: the system models exactly one document, so any
    /// identifier is mapped to the same in-memory text.
    pub fn source(&self, id: typst::syntax::FileId) -> (r: typst::syntax::Source)
        ensures
            engine::source_text(r) == self.source@,
    {
        engine::make_source(id, &self.source)
    }

    /// Resolve raw bytes: the UTF-8 encoding of the document text,
    /// regardless of the identifier, mirroring `source`.
    pub fn file(&self, _id: typst::syntax::FileId) -> (r: typst::foundations::Bytes)
        ensures
            engine::bytes_data(r) == encode_utf8(self.source@),
    {
        engine::text_bytes(&self.source)
    }
}

/// Resolving today's date is deterministic: any two results that `today`'s
/// contract admits for the same captured instant and the same explicit
/// offset are the same date.
pub proof fn lemma_today_deterministic(
    now: i64,
    hours: i64,
    r1: Option<Date>,
    r2: Option<Date>,
)
    requires
        r1 == today_with_offset_spec(now, hours),
        r2 == today_with_offset_spec(now, hours),
    ensures
        r1 == r2,
{
}

fn duplicate_diags(list: &Vec<SourceDiagnostic>) -> (r: Vec<SourceDiagnostic>)
    ensures
        r@.len() == list@.len(),
        forall|i: int| 0 <= i < list@.len() ==> diag_like(#[trigger] r@[i], list@[i]),
{
    let mut out: Vec<SourceDiagnostic> = Vec::new();
    let mut i: usize = 0;
    while i < list.len()
        invariant
            i <= list@.len(),
            out@.len() == i,
            forall|j: int| 0 <= j < i ==> diag_like(#[trigger] out@[j], list@[j]),
        decreases list@.len() - i,
    {
        out.push(list[i].duplicate());
        i = i + 1;
    }
    out
}

} // verus!
