//! End-to-end tests that drive real compilations through the session.

use typst_web::web_structs::SourceDiagnosticSeverity;
use typst_web::web_structs_ide::{Autocomplete, Completion, CompletionVariant};
use typst_web::WebWorld;

/// The world adapter the compiler engine is run against: every capability
/// is answered from the session's own state.
struct HostWorld<'a>(&'a WebWorld);

impl typst::World for HostWorld<'_> {
    fn library(&self) -> &typst::utils::LazyHash<typst::Library> {
        self.0.library()
    }

    fn book(&self) -> &typst::utils::LazyHash<typst::text::FontBook> {
        self.0.book()
    }

    fn main(&self) -> typst::syntax::FileId {
        self.0.main()
    }

    fn source(&self, id: typst::syntax::FileId) -> typst::diag::FileResult<typst::syntax::Source> {
        Ok(self.0.source(id))
    }

    fn file(
        &self,
        id: typst::syntax::FileId,
    ) -> typst::diag::FileResult<typst::foundations::Bytes> {
        Ok(self.0.file(id))
    }

    fn font(&self, index: usize) -> Option<typst::text::Font> {
        self.0.font(index)
    }

    fn today(&self, offset: Option<i64>) -> Option<typst::foundations::Datetime> {
        self.0
            .today(offset)
            .and_then(|d| typst::foundations::Datetime::from_ymd(d.year, d.month, d.day))
    }
}

impl typst_ide::IdeWorld for HostWorld<'_> {
    fn upcast(&self) -> &dyn typst::World {
        self
    }
}

fn compile(world: &mut WebWorld) {
    world.begin_compile();
    let warned = typst::compile::<typst::layout::PagedDocument>(&HostWorld(world));
    let output = warned
        .output
        .map_err(|errors| errors.into_iter().collect::<Vec<_>>());
    let warnings = warned.warnings.into_iter().collect::<Vec<_>>();
    world
        .store_compile_outcome(output, warnings)
        .expect("engine spans must resolve against the compiled source");
}

fn world_with_fonts(text: &str) -> WebWorld {
    let mut world = WebWorld::new();
    world.source = String::from(text);
    for data in typst_assets::fonts() {
        world.add_font(data).expect("bundled fonts parse");
    }
    world
}

fn autocomplete(world: &WebWorld, cursor: usize, explicit: bool) -> Option<Autocomplete> {
    let document = world.artifact();
    let source = world.source(world.main());
    typst_ide::autocomplete(&HostWorld(world), document, &source, cursor, explicit).map(
        |(position, completions)| {
            let completions = completions
                .into_iter()
                .map(Completion::from_typst_completion)
                .collect();
            Autocomplete::from_typst_completion((position, completions))
        },
    )
}

#[test]
fn hello_document_compiles_without_errors() {
    let mut world = WebWorld::new();
    world.source = String::from("#set text(12pt)\n= Hello");
    compile(&mut world);
    assert_eq!(world.errors().len(), 0);
    let svg = world.render_svg();
    assert!(svg.is_some());
    assert!(svg.unwrap().contains("<svg"));
}

#[test]
fn undefined_identifier_yields_one_error_within_bounds() {
    let mut world = WebWorld::new();
    world.source = String::from("#foo()");
    compile(&mut world);
    let errors = world.errors();
    assert_eq!(errors.len(), 1);
    let error = &errors[0];
    assert_eq!(error.severity, SourceDiagnosticSeverity::Error);
    assert!(error.span.start <= error.span.end);
    assert!((error.span.end as usize) <= world.source.len());
    assert!(error.message.contains("unknown variable"));
}

#[test]
fn undefined_function_error_has_empty_trace() {
    let mut world = WebWorld::new();
    world.source = String::from("#foo()");
    compile(&mut world);
    let errors = world.errors();
    assert!(errors.len() >= 1);
    assert!(errors[0].trace.is_empty());
    assert!(world.render_svg().is_none());
}

#[test]
fn warning_appears_only_in_warnings() {
    let mut world = WebWorld::new();
    world.source = String::from("#set text(font: \"No Such Font Anywhere\")\n= Hi");
    compile(&mut world);
    let warnings = world.warnings();
    assert!(warnings.len() >= 1);
    for w in &warnings {
        assert_eq!(w.severity, SourceDiagnosticSeverity::Warning);
    }
    for e in &world.errors() {
        assert_eq!(e.severity, SourceDiagnosticSeverity::Error);
    }
}

#[test]
fn compile_replaces_previous_outcome() {
    let mut world = WebWorld::new();
    world.source = String::from("#foo()");
    compile(&mut world);
    assert_eq!(world.errors().len(), 1);
    world.source = String::from("= Fine now");
    compile(&mut world);
    assert_eq!(world.errors().len(), 0);
    assert!(world.render_svg().is_some());
}

#[test]
fn render_svg_is_none_before_any_compile() {
    let world = WebWorld::new();
    assert!(world.render_svg().is_none());
}

#[test]
fn autocomplete_beyond_document_length_is_none() {
    let mut world = WebWorld::new();
    world.source = String::from("#set");
    compile(&mut world);
    let result = autocomplete(&world, world.source.len() + 10, true);
    assert!(result.is_none());
}

#[test]
fn autocomplete_in_markup_suggests_something() {
    let mut world = WebWorld::new();
    world.source = String::from("#set text(12pt)\n#li");
    compile(&mut world);
    let result = autocomplete(&world, world.source.len(), true);
    assert!(result.is_some());
    let result = result.unwrap();
    assert!(result.completions.len() >= 1);
    for c in &result.completions {
        if c.kind.variant != CompletionVariant::Symbol {
            assert_eq!(c.kind.data, None);
        }
    }
}

#[test]
fn fonts_and_catalog_grow_in_lock_step() {
    let mut world = WebWorld::new();
    let mut count = 0;
    for data in typst_assets::fonts() {
        if world.add_font(data).is_ok() {
            count += 1;
        }
        assert_eq!(world.fonts.len(), count);
    }
    assert!(count >= 1);
    assert!(world.font(0).is_some());
    assert!(world.font(count).is_none());
}

#[test]
fn add_font_rejects_garbage_and_leaves_state_unchanged() {
    let mut world = WebWorld::new();
    let result = world.add_font(b"this is not a font resource");
    assert!(result.is_err());
    assert_eq!(world.fonts.len(), 0);
    assert!(world.font(0).is_none());
}

#[test]
fn document_with_fonts_renders() {
    let mut world = world_with_fonts("= Hello\nSome text.");
    compile(&mut world);
    assert_eq!(world.errors().len(), 0);
    assert!(world.render_svg().is_some());
}

#[test]
fn today_is_none_before_any_compile() {
    let world = WebWorld::new();
    assert!(world.today(None).is_none());
    assert!(world.today(Some(0)).is_none());
}

#[test]
fn today_is_deterministic_for_fixed_state_and_offset() {
    let mut world = WebWorld::new();
    world.begin_compile();
    let first = world.today(Some(2));
    let second = world.today(Some(2));
    assert_eq!(first, second);
    assert!(first.is_some());
    let date = first.unwrap();
    assert!((1..=12).contains(&date.month));
    assert!((1..=31).contains(&date.day));
}

#[test]
fn today_rejects_offsets_of_a_full_day_or_more() {
    let mut world = WebWorld::new();
    world.begin_compile();
    assert!(world.today(Some(24)).is_none());
    assert!(world.today(Some(-24)).is_none());
    assert!(world.today(Some(23)).is_some());
    assert!(world.today(Some(-23)).is_some());
}
