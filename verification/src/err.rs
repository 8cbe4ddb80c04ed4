//! The error taxonomy of the pipeline. Each stage fails fast with its own
//! structured error; the orchestrator surfaces the originating error
//! untouched, so a caller can present span and category as a compiler-style
//! diagnostic.
use vstd::prelude::*;
use crate::ir::Span;

verus! {

// ===== Parsing =====

/// Why parsing failed.
#[derive(Clone, Copy, PartialEq, Eq, Structural, Debug)]
pub enum ParseErrorKind {
    /// A character that no token may start with.
    UnexpectedChar,
    /// A number literal that does not fit the 32-bit literal range.
    NumberTooLarge,
    /// A token other than the one the grammar requires here.
    UnexpectedToken,
    /// The source ended where the grammar requires more.
    UnexpectedEof,
    /// An identifier that no declaration or built-in binds.
    UnknownIdent,
    /// A declaration reusing a name that is already bound.
    DuplicateName,
    /// A declared name that collides with a reserved word of the language.
    ReservedWord,
    /// A built-in variable of a stage other than the one being parsed.
    StageMismatch,
    /// An assignment to a read-only name.
    NotWritable,
    /// A preprocessor define whose value is not a single token.
    InvalidDefine,
    /// No function with the requested entry-point name was declared.
    MissingEntry,
}

/// A lexical or syntactic failure, carrying the position it was detected at.
#[derive(Clone, Copy, PartialEq, Eq, Structural, Debug)]
pub struct ParseError {
    pub span: Span,
    pub kind: ParseErrorKind,
}

impl ParseError {
    /// A human-readable description of the failure.
    pub fn message(&self) -> &'static str {
        match self.kind {
            ParseErrorKind::UnexpectedChar => "character cannot start a token",
            ParseErrorKind::NumberTooLarge => "number literal out of range",
            ParseErrorKind::UnexpectedToken => "unexpected token",
            ParseErrorKind::UnexpectedEof => "unexpected end of input",
            ParseErrorKind::UnknownIdent => "unknown identifier",
            ParseErrorKind::DuplicateName => "name is already declared",
            ParseErrorKind::ReservedWord => "name is a reserved word",
            ParseErrorKind::StageMismatch => "built-in belongs to a different stage",
            ParseErrorKind::NotWritable => "target of assignment is read-only",
            ParseErrorKind::InvalidDefine => "define value is not a single token",
            ParseErrorKind::MissingEntry => "entry-point function not found",
        }
    }
}

// ===== Validation =====

/// The check category a validation failure belongs to.
#[derive(Clone, Copy, PartialEq, Eq, Structural, Debug)]
pub enum ValidationCategory {
    TypeMismatch,
    CapabilityMissing,
    VisibilityViolation,
    NonUniformControlFlow,
    Other,
}

/// A static check failure, carrying the span of the offending construct,
/// the failed check's category and, for a missing capability, its bit.
#[derive(Clone, Copy, PartialEq, Eq, Structural, Debug)]
pub struct ValidationError {
    pub span: Span,
    pub category: ValidationCategory,
    /// The capability bits that were required but absent; zero for every
    /// category other than `CapabilityMissing`.
    pub missing_caps: u32,
}

impl ValidationError {
    /// A human-readable description of the failed check.
    pub fn message(&self) -> &'static str {
        match self.category {
            ValidationCategory::TypeMismatch => "expression does not type-check",
            ValidationCategory::CapabilityMissing => "feature needs a capability that is not enabled",
            ValidationCategory::VisibilityViolation => "resource is not visible to this stage",
            ValidationCategory::NonUniformControlFlow => "barrier under non-uniform control flow",
            ValidationCategory::Other => "module is not well-formed",
        }
    }
}

// ===== Code generation =====

/// The IR construct a backend could not express.
#[derive(Clone, Copy, PartialEq, Eq, Structural, Debug)]
pub enum Construct {
    /// Double-precision arithmetic.
    F64Arithmetic,
    /// A name that is not a valid target-language identifier.
    InvalidIdentifier,
    /// A name declared twice, which the target cannot distinguish.
    DuplicateIdentifier,
    /// An attribute location or binding index beyond the target's literal
    /// range.
    OversizedIndex,
}

/// A construct the target cannot express under the given options; the
/// backend fails rather than silently approximating.
#[derive(Clone, Copy, PartialEq, Eq, Structural, Debug)]
pub struct CodegenError {
    pub construct: Construct,
}

impl CodegenError {
    /// The name of the construct that could not be lowered.
    pub fn construct_text(&self) -> &'static str {
        match self.construct {
            Construct::F64Arithmetic => "f64 arithmetic",
            Construct::InvalidIdentifier => "identifier",
            Construct::DuplicateIdentifier => "identifier",
            Construct::OversizedIndex => "index literal",
        }
    }

    /// Why the construct could not be lowered.
    pub fn reason(&self) -> &'static str {
        match self.construct {
            Construct::F64Arithmetic => "target language version has no double-precision type",
            Construct::InvalidIdentifier => "name is not a valid target identifier",
            Construct::DuplicateIdentifier => "name is declared more than once",
            Construct::OversizedIndex => "value does not fit the target's literal range",
        }
    }
}

// ===== The pipeline =====

/// The union of the three stage-specific errors, each kept as it was raised.
#[derive(Clone, Copy, PartialEq, Eq, Structural, Debug)]
pub enum PipelineError {
    Parse(ParseError),
    Validation(ValidationError),
    Codegen(CodegenError),
}

} // verus!
