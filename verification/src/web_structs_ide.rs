//! Flat, host-safe completion records: the IDE engine's suggestions are
//! flattened into these before the host sees them.

use vstd::prelude::*;

use crate::engine;

verus! {

/// The closed set of completion kinds the IDE engine reports.
#[derive(Clone, Copy, PartialEq, Eq, Structural, Debug)]
pub enum CompletionVariant {
    Syntax,
    Func,
    Type,
    Param,
    Constant,
    Path,
    Package,
    Label,
    Font,
    Symbol,
}

/// The IDE engine's completion kind, carried over as plain values; only
/// `Symbol` carries a payload, its character.
#[derive(PartialEq, Eq, Debug)]
pub enum RawCompletionKind {
    Syntax,
    Func,
    Type,
    Param,
    Constant,
    Path,
    Package,
    Label,
    Font,
    Symbol(char),
}

/// A completion kind flattened for the host: the host's type system
/// cannot express a variant with an inline payload, so the kind is split
/// into a tag and an optional payload.
/// `data` is a character for the `Symbol` variant and empty otherwise.
#[derive(Clone, Copy, PartialEq, Eq, Structural, Debug)]
pub struct CompletionKind {
    pub variant: CompletionVariant,
    pub data: Option<char>,
}

/// The flat kind a raw engine completion kind maps to: the tag is carried
/// over one-to-one, and only `Symbol` populates the payload.
pub open spec fn kind_of_raw(raw: RawCompletionKind) -> CompletionKind {
    match raw {
        RawCompletionKind::Syntax => CompletionKind {
            variant: CompletionVariant::Syntax,
            data: None,
        },
        RawCompletionKind::Func => CompletionKind { variant: CompletionVariant::Func, data: None },
        RawCompletionKind::Type => CompletionKind { variant: CompletionVariant::Type, data: None },
        RawCompletionKind::Param => CompletionKind {
            variant: CompletionVariant::Param,
            data: None,
        },
        RawCompletionKind::Constant => CompletionKind {
            variant: CompletionVariant::Constant,
            data: None,
        },
        RawCompletionKind::Path => CompletionKind { variant: CompletionVariant::Path, data: None },
        RawCompletionKind::Package => CompletionKind {
            variant: CompletionVariant::Package,
            data: None,
        },
        RawCompletionKind::Label => CompletionKind {
            variant: CompletionVariant::Label,
            data: None,
        },
        RawCompletionKind::Font => CompletionKind { variant: CompletionVariant::Font, data: None },
        RawCompletionKind::Symbol(ch) => CompletionKind {
            variant: CompletionVariant::Symbol,
            data: Some(ch),
        },
    }
}

impl CompletionKind {
    /// Flatten a raw engine completion kind: the payload is populated
    /// exactly for `Symbol`, and holds that symbol's character.
    pub fn from_raw(raw: RawCompletionKind) -> (r: CompletionKind)
        ensures
            r == kind_of_raw(raw),
            r.data is Some <==> r.variant == CompletionVariant::Symbol,
    {
        match raw {
            RawCompletionKind::Syntax => CompletionKind {
                variant: CompletionVariant::Syntax,
                data: None,
            },
            RawCompletionKind::Func => CompletionKind {
                variant: CompletionVariant::Func,
                data: None,
            },
            RawCompletionKind::Type => CompletionKind {
                variant: CompletionVariant::Type,
                data: None,
            },
            RawCompletionKind::Param => CompletionKind {
                variant: CompletionVariant::Param,
                data: None,
            },
            RawCompletionKind::Constant => CompletionKind {
                variant: CompletionVariant::Constant,
                data: None,
            },
            RawCompletionKind::Path => CompletionKind {
                variant: CompletionVariant::Path,
                data: None,
            },
            RawCompletionKind::Package => CompletionKind {
                variant: CompletionVariant::Package,
                data: None,
            },
            RawCompletionKind::Label => CompletionKind {
                variant: CompletionVariant::Label,
                data: None,
            },
            RawCompletionKind::Font => CompletionKind {
                variant: CompletionVariant::Font,
                data: None,
            },
            RawCompletionKind::Symbol(ch) => CompletionKind {
                variant: CompletionVariant::Symbol,
                data: Some(ch),
            },
        }
    }
}

/// A single autocompletion suggestion, flattened for the host.
#[derive(PartialEq, Eq, Debug)]
pub struct Completion {
    pub kind: CompletionKind,
    pub label: String,
    pub apply: Option<String>,
    pub detail: Option<String>,
}

impl Completion {
    /// Flatten one IDE engine completion: the kind maps through
    /// [`CompletionKind::from_raw`], and the label, apply and detail texts
    /// are carried over verbatim.
    pub fn from_typst_completion(completion: engine::IdeCompletion) -> (r: Completion)
        ensures
            r.kind == kind_of_raw(engine::kind_of(completion)),
            r.label@ == engine::texts_of(completion).0,
            r.apply.deep_view() == engine::texts_of(completion).1,
            r.detail.deep_view() == engine::texts_of(completion).2,
            r.kind.data is Some <==> r.kind.variant == CompletionVariant::Symbol,
    {
        let kind = CompletionKind::from_raw(engine::completion_kind(&completion));
        let (label, apply, detail) = engine::completion_texts(&completion);
        Completion { kind, label, apply, detail }
    }
}

/// The result of one autocompletion request: the byte position the
/// completions apply from, and the suggestions in the engine's order.
#[derive(PartialEq, Eq, Debug)]
pub struct Autocomplete {
    pub position: u32,
    pub completions: Vec<Completion>,
}

impl Autocomplete {
    /// Pair the position an autocompletion request resolved at with its
    /// flattened suggestions, truncating the position to 32 bits.
    pub fn from_typst_completion(completion: (usize, Vec<Completion>)) -> (r: Autocomplete)
        ensures
            r.position == completion.0 as u32,
            r.completions == completion.1,
    {
        Autocomplete {
            position: #[verifier::truncate] (completion.0 as u32),
            completions: completion.1,
        }
    }
}

} // verus!
