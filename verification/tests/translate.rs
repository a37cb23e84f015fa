//! Unit tests for the pure translation layer: spans, tracepoints,
//! diagnostics and completions.

use typst_web::web_structs::{
    RawTracepoint, SourceDiagnostic, Span, TraceEntry, Tracepoint, TracepointVariant,
};
use typst_web::web_structs_ide::{
    Autocomplete, Completion, CompletionKind, CompletionVariant, RawCompletionKind,
};
use typst_web::WebWorld;

#[test]
fn span_from_range_keeps_both_offsets() {
    let span = Span::from_range(3..17);
    assert_eq!(span.start, 3);
    assert_eq!(span.end, 17);
}

#[test]
fn trace_entry_pairs_tracepoint_and_range() {
    let point = Tracepoint::from_typst_tracepoint(RawTracepoint::Import);
    let entry = TraceEntry::new_with_range(point, 5..9);
    assert_eq!(entry.span.start, 5);
    assert_eq!(entry.span.end, 9);
    assert_eq!(entry.tracepoint.variant, TracepointVariant::Import);
}

#[test]
fn tracepoint_variants_map_one_to_one() {
    let call = Tracepoint::from_typst_tracepoint(RawTracepoint::Call(Some(String::from("f"))));
    assert_eq!(call.variant, TracepointVariant::Call);
    assert_eq!(call.name, Some(String::from("f")));

    let anonymous = Tracepoint::from_typst_tracepoint(RawTracepoint::Call(None));
    assert_eq!(anonymous.variant, TracepointVariant::Call);
    assert_eq!(anonymous.name, None);

    let show = Tracepoint::from_typst_tracepoint(RawTracepoint::Show(String::from("heading")));
    assert_eq!(show.variant, TracepointVariant::Show);
    assert_eq!(show.name, Some(String::from("heading")));

    let import = Tracepoint::from_typst_tracepoint(RawTracepoint::Import);
    assert_eq!(import.variant, TracepointVariant::Import);
    assert_eq!(import.name, None);
}

#[test]
fn tracepoint_messages_match_the_engine_wording() {
    let named = Tracepoint::from_typst_tracepoint(RawTracepoint::Call(Some(String::from(
        "clamp",
    ))));
    assert_eq!(
        named.to_message(),
        "error occurred in this call of function `clamp`"
    );

    let anonymous = Tracepoint::from_typst_tracepoint(RawTracepoint::Call(None));
    assert_eq!(anonymous.to_message(), "error occurred in this function call");

    let show = Tracepoint::from_typst_tracepoint(RawTracepoint::Show(String::from("strong")));
    assert_eq!(
        show.to_message(),
        "error occurred while applying show rule to this strong"
    );

    let import = Tracepoint::from_typst_tracepoint(RawTracepoint::Import);
    assert_eq!(
        import.to_message(),
        "error occurred while importing this module"
    );
}

#[test]
fn symbol_completion_carries_its_character() {
    let completion = Completion::from_typst_completion(typst_ide::Completion {
        kind: typst_ide::CompletionKind::Symbol('π'),
        label: "pi".into(),
        apply: None,
        detail: None,
    });
    assert_eq!(completion.kind.variant, CompletionVariant::Symbol);
    assert_eq!(completion.kind.data, Some('π'));
    assert_eq!(completion.label, "pi");
}

#[test]
fn non_symbol_completions_carry_no_data() {
    let flats = vec![
        (CompletionKind::from_raw(RawCompletionKind::Syntax), CompletionVariant::Syntax),
        (CompletionKind::from_raw(RawCompletionKind::Func), CompletionVariant::Func),
        (CompletionKind::from_raw(RawCompletionKind::Type), CompletionVariant::Type),
        (CompletionKind::from_raw(RawCompletionKind::Param), CompletionVariant::Param),
        (CompletionKind::from_raw(RawCompletionKind::Constant), CompletionVariant::Constant),
        (CompletionKind::from_raw(RawCompletionKind::Path), CompletionVariant::Path),
        (CompletionKind::from_raw(RawCompletionKind::Package), CompletionVariant::Package),
        (CompletionKind::from_raw(RawCompletionKind::Label), CompletionVariant::Label),
        (CompletionKind::from_raw(RawCompletionKind::Font), CompletionVariant::Font),
    ];
    for (flat, expected) in flats {
        assert_eq!(flat.variant, expected);
        assert_eq!(flat.data, None);
    }
}

#[test]
fn completion_translation_keeps_apply_and_detail() {
    let completion = Completion::from_typst_completion(typst_ide::Completion {
        kind: typst_ide::CompletionKind::Func,
        label: "list".into(),
        apply: Some("list(${})".into()),
        detail: Some("A bullet list.".into()),
    });
    assert_eq!(completion.kind.variant, CompletionVariant::Func);
    assert_eq!(completion.kind.data, None);
    assert_eq!(completion.label, "list");
    assert_eq!(completion.apply, Some(String::from("list(${})")));
    assert_eq!(completion.detail, Some(String::from("A bullet list.")));
}

#[test]
fn autocomplete_result_keeps_position_and_order() {
    let completions = vec![
        Completion::from_typst_completion(typst_ide::Completion {
            kind: typst_ide::CompletionKind::Func,
            label: "first".into(),
            apply: None,
            detail: None,
        }),
        Completion::from_typst_completion(typst_ide::Completion {
            kind: typst_ide::CompletionKind::Type,
            label: "second".into(),
            apply: None,
            detail: None,
        }),
    ];
    let result = Autocomplete::from_typst_completion((7, completions));
    assert_eq!(result.position, 7);
    assert_eq!(result.completions.len(), 2);
    assert_eq!(result.completions[0].label, "first");
    assert_eq!(result.completions[1].label, "second");
}

#[test]
fn detached_span_does_not_translate() {
    let world = WebWorld::new();
    let diagnostic =
        typst::diag::SourceDiagnostic::error(typst::syntax::Span::detached(), "boom");
    let flat = SourceDiagnostic::from_source_diagnostic_and_world(&diagnostic, &world);
    assert!(flat.is_none());
}
