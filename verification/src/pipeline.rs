//! The orchestrator: one `translate` call composes frontend, validator and
//! backend, never skips a stage, and surfaces the originating error
//! untouched. Two convenience compositions mirror the common pairings of
//! source and target language.
use vstd::prelude::*;
use crate::ir::ShaderStage;
use crate::caps::{Capabilities, ValidationFlags};
use crate::err::PipelineError;
use crate::front::{
    FrontendOptions, parse, parse_wgsl, spec_options_entry, spec_parse_glsl, spec_parse_wgsl,
    view_defines,
};
use crate::gen::{
    BindingSlot, TargetOptions, TranslationInfo, generate_msl, generate_wgsl, spec_generate_msl,
    spec_generate_wgsl,
};
use crate::valid::{spec_module_info, spec_validate, validate, view_module_info};

verus! {

/// A translation target.
#[derive(Clone, Copy, PartialEq, Eq, Structural, Debug)]
pub enum Target {
    Wgsl,
    Msl,
}

/// The product of a successful translation: the target source text, and
/// the binding table for targets whose binding model differs from the
/// IR's.
pub struct Translation {
    pub text: String,
    pub info: Option<TranslationInfo>,
}

/// The outcome of the whole pipeline on the given inputs: parse the
/// GLSL-like source for `stage`, validate under `flags` and `caps`, then
/// generate for `target`; the first failing stage's error is returned as
/// it was raised.
pub open spec fn spec_translate(
    src: Seq<char>,
    stage: ShaderStage,
    entry: Seq<char>,
    ds: Seq<(Seq<char>, Seq<char>)>,
    flags: ValidationFlags,
    caps: Capabilities,
    target: Target,
    topts: TargetOptions,
) -> Result<(Seq<char>, Option<Seq<BindingSlot>>), PipelineError> {
    match spec_parse_glsl(src, stage, entry, ds) {
        Err(e) => Err(PipelineError::Parse(e)),
        Ok(m) => match spec_validate(m, flags, caps) {
            Err(e) => Err(PipelineError::Validation(e)),
            Ok(_info) => match target {
                Target::Wgsl => match spec_generate_wgsl(m, topts) {
                    Ok(t) => Ok((t, None)),
                    Err(e) => Err(PipelineError::Codegen(e)),
                },
                Target::Msl => match spec_generate_msl(m, topts) {
                    Ok(p) => Ok((p.0, Some(p.1))),
                    Err(e) => Err(PipelineError::Codegen(e)),
                },
            },
        },
    }
}

/// Whether an executable translation outcome carries the ghost one.
pub open spec fn translation_matches(
    r: Result<Translation, PipelineError>,
    s: Result<(Seq<char>, Option<Seq<BindingSlot>>), PipelineError>,
) -> bool {
    match (r, s) {
        (Ok(tr), Ok(p)) => tr.text@ == p.0 && match (tr.info, p.1) {
            (Some(ti), Some(b)) => ti.bindings@ == b,
            (None, None) => true,
            _ => false,
        },
        (Err(a), Err(b)) => a == b,
        _ => false,
    }
}

/// Translates GLSL-like source for `stage` into the chosen target
/// language: parse with the frontend options, validate under the flags
/// and capability profile, generate under the target options. Code
/// generation is only attempted on a module that validated under exactly
/// these flags and capabilities; a failure at any stage aborts the call
/// with that stage's error.
pub fn translate(
    source: &str,
    stage: ShaderStage,
    fopts: &FrontendOptions,
    flags: &ValidationFlags,
    caps: &Capabilities,
    target: Target,
    topts: &TargetOptions,
) -> (r: Result<Translation, PipelineError>)
    requires
        source@.len() < usize::MAX,
    ensures
        translation_matches(
            r,
            spec_translate(
                source@,
                stage,
                spec_options_entry(*fopts),
                view_defines(fopts.defines@),
                *flags,
                *caps,
                target,
                *topts,
            ),
        ),
{
    let m = match parse(source, stage, fopts) {
        Ok(m) => m,
        Err(e) => {
            return Err(PipelineError::Parse(e));
        },
    };
    let info = match validate(&m, flags, caps) {
        Ok(info) => info,
        Err(e) => {
            return Err(PipelineError::Validation(e));
        },
    };
    proof {
        assert(view_module_info(info) == spec_module_info(crate::ir::view_module(m)));
    }
    match target {
        Target::Wgsl => match generate_wgsl(&m, &info, topts) {
            Ok(text) => Ok(Translation { text, info: None }),
            Err(e) => Err(PipelineError::Codegen(e)),
        },
        Target::Msl => match generate_msl(&m, &info, topts) {
            Ok((text, ti)) => Ok(Translation { text, info: Some(ti) }),
            Err(e) => Err(PipelineError::Codegen(e)),
        },
    }
}

/// The outcome of the GLSL-to-WGSL convenience pairing: the default entry
/// point, no defines, every check enabled, no optional capability, default
/// target options.
pub open spec fn spec_glsl_to_wgsl(src: Seq<char>, stage: ShaderStage) -> Result<
    Seq<char>,
    PipelineError,
> {
    match spec_translate(
        src,
        stage,
        "main"@,
        Seq::empty(),
        ValidationFlags { bits: crate::caps::FLAG_ALL },
        Capabilities { bits: 0 },
        Target::Wgsl,
        TargetOptions { lang_version_major: 2, lang_version_minor: 1, emit_header: false },
    ) {
        Ok(p) => Ok(p.0),
        Err(e) => Err(e),
    }
}

/// Translates a GLSL-like shader for `stage` into WGSL-like text, with
/// every check enabled and no optional capability.
pub fn glsl_to_wgsl(glsl: &str, stage: ShaderStage) -> (r: Result<String, PipelineError>)
    requires
        glsl@.len() < usize::MAX,
    ensures
        match (r, spec_glsl_to_wgsl(glsl@, stage)) {
            (Ok(s), Ok(t)) => s@ == t,
            (Err(a), Err(b)) => a == b,
            _ => false,
        },
{
    let fopts = FrontendOptions::new();
    let flags = ValidationFlags::all();
    let caps = Capabilities::empty();
    let topts = crate::gen::TargetOptions::new();
    match translate(glsl, stage, &fopts, &flags, &caps, Target::Wgsl, &topts) {
        Ok(tr) => Ok(tr.text),
        Err(e) => Err(e),
    }
}

/// The outcome of the WGSL-to-MSL pairing: parse the WGSL-like text
/// (stages come from its attributes), validate with every check and no
/// optional capability, emit MSL-like text at language version 2.1.
pub open spec fn spec_wgsl_to_msl(src: Seq<char>) -> Result<
    (Seq<char>, Seq<BindingSlot>),
    PipelineError,
> {
    match spec_parse_wgsl(src) {
        Err(e) => Err(PipelineError::Parse(e)),
        Ok(m) => match spec_validate(
            m,
            ValidationFlags { bits: crate::caps::FLAG_ALL },
            Capabilities { bits: 0 },
        ) {
            Err(e) => Err(PipelineError::Validation(e)),
            Ok(_info) => match spec_generate_msl(
                m,
                TargetOptions { lang_version_major: 2, lang_version_minor: 1, emit_header: false },
            ) {
                Ok(p) => Ok(p),
                Err(e) => Err(PipelineError::Codegen(e)),
            },
        },
    }
}

/// Translates WGSL-like text into MSL-like text and the binding table
/// that remaps IR (group, binding) pairs onto the target's flat slots.
pub fn wgsl_to_msl(wgsl: &str) -> (r: Result<(String, TranslationInfo), PipelineError>)
    requires
        wgsl@.len() < usize::MAX,
    ensures
        match (r, spec_wgsl_to_msl(wgsl@)) {
            (Ok(p), Ok(q)) => p.0@ == q.0 && p.1.bindings@ == q.1,
            (Err(a), Err(b)) => a == b,
            _ => false,
        },
{
    let m = match parse_wgsl(wgsl) {
        Ok(m) => m,
        Err(e) => {
            return Err(PipelineError::Parse(e));
        },
    };
    let flags = ValidationFlags::all();
    let caps = Capabilities::empty();
    let info = match validate(&m, &flags, &caps) {
        Ok(info) => info,
        Err(e) => {
            return Err(PipelineError::Validation(e));
        },
    };
    proof {
        assert(view_module_info(info) == spec_module_info(crate::ir::view_module(m)));
    }
    let topts = TargetOptions::new();
    match generate_msl(&m, &info, &topts) {
        Ok(p) => Ok(p),
        Err(e) => Err(PipelineError::Codegen(e)),
    }
}

/// Determinism of the whole pipeline: the outcome is a function of the
/// explicit inputs alone, so two translations of identical inputs agree
/// byte for byte, in both their text and their error.
pub proof fn lemma_translate_deterministic(
    r1: Result<(Seq<char>, Option<Seq<BindingSlot>>), PipelineError>,
    r2: Result<(Seq<char>, Option<Seq<BindingSlot>>), PipelineError>,
    src: Seq<char>,
    stage: ShaderStage,
    entry: Seq<char>,
    ds: Seq<(Seq<char>, Seq<char>)>,
    flags: ValidationFlags,
    caps: Capabilities,
    target: Target,
    topts: TargetOptions,
)
    requires
        r1 == spec_translate(src, stage, entry, ds, flags, caps, target, topts),
        r2 == spec_translate(src, stage, entry, ds, flags, caps, target, topts),
    ensures
        r1 == r2,
{
}

} // verus!
