use shadertrans::caps::{
    Capabilities, ValidationFlags, CAP_FLOAT64, CAP_MULTISAMPLED_ARRAY_TEXTURES, FLAG_TYPES,
};
use shadertrans::err::{Construct, PipelineError, ValidationCategory};
use shadertrans::front::{parse, parse_wgsl, FrontendOptions};
use shadertrans::gen::TargetOptions;
use shadertrans::ir::ShaderStage;
use shadertrans::pipeline::{glsl_to_wgsl, translate, wgsl_to_msl, Target};
use shadertrans::valid::validate;

const MINIMAL_VERTEX: &str = "\
in vec4 position;
void main() {
    gl_Position = position;
}
";

#[test]
fn minimal_vertex_shader_translates_to_wgsl() {
    let fopts = FrontendOptions::new();
    let flags = ValidationFlags::all();
    let caps = Capabilities::empty();
    let topts = TargetOptions::new();
    let out = translate(
        MINIMAL_VERTEX,
        ShaderStage::Vertex,
        &fopts,
        &flags,
        &caps,
        Target::Wgsl,
        &topts,
    )
    .expect("translation should succeed");
    assert!(!out.text.is_empty());
    assert!(out.text.contains("@vertex"));
    assert!(out.info.is_none());
}

#[test]
fn translation_is_deterministic() {
    let fopts = FrontendOptions::new();
    let flags = ValidationFlags::all();
    let caps = Capabilities::empty();
    let topts = TargetOptions::new();
    let a = translate(
        MINIMAL_VERTEX,
        ShaderStage::Vertex,
        &fopts,
        &flags,
        &caps,
        Target::Wgsl,
        &topts,
    )
    .unwrap();
    let b = translate(
        MINIMAL_VERTEX,
        ShaderStage::Vertex,
        &fopts,
        &flags,
        &caps,
        Target::Wgsl,
        &topts,
    )
    .unwrap();
    assert_eq!(a.text.as_bytes(), b.text.as_bytes());
}

const MS_ARRAY_FRAGMENT: &str = "\
layout(set = 0, binding = 1) uniform texture2DMSArray shadow_maps;
void main() {
    gl_FragDepth = 1;
}
";

#[test]
fn undeclared_capability_fails_validation_and_succeeds_when_added() {
    let fopts = FrontendOptions::new();
    let m = parse(MS_ARRAY_FRAGMENT, ShaderStage::Fragment, &fopts).expect("parse");
    let flags = ValidationFlags::all();
    let err = match validate(&m, &flags, &Capabilities::empty()) {
        Err(e) => e,
        Ok(_) => panic!("unexpectedly succeeded: capability is absent"),
    };
    assert_eq!(err.category, ValidationCategory::CapabilityMissing);
    assert_eq!(err.missing_caps, CAP_MULTISAMPLED_ARRAY_TEXTURES);
    validate(&m, &flags, &Capabilities::from_bits(CAP_MULTISAMPLED_ARRAY_TEXTURES))
        .expect("validation succeeds once the capability is enabled");
}

#[test]
fn compute_barrier_under_nonuniform_condition_is_rejected() {
    let src = "\
void main() {
    if (gl_LocalInvocationIndex < 8) {
        barrier();
    }
}
";
    let fopts = FrontendOptions::new();
    let m = parse(src, ShaderStage::Compute, &fopts).expect("parse");
    let err = match validate(&m, &ValidationFlags::all(), &Capabilities::empty()) {
        Err(e) => e,
        Ok(_) => panic!("unexpectedly succeeded: barrier under divergent control flow"),
    };
    assert_eq!(err.category, ValidationCategory::NonUniformControlFlow);
    assert_eq!(err.span.line, 3);
}

#[test]
fn compute_barrier_under_uniform_condition_is_accepted() {
    let src = "\
void main() {
    if (gl_WorkGroupID < 8) {
        barrier();
    }
}
";
    let fopts = FrontendOptions::new();
    let m = parse(src, ShaderStage::Compute, &fopts).expect("parse");
    validate(&m, &ValidationFlags::all(), &Capabilities::empty())
        .expect("workgroup id is uniform over the group");
}

#[test]
fn f64_fails_codegen_below_the_msl_version_floor() {
    let src = "\
void main() {
    double d = 1;
    gl_Position = vec4(0, 0, 0, 1);
}
";
    let fopts = FrontendOptions::new();
    let flags = ValidationFlags::all();
    let caps = Capabilities::from_bits(CAP_FLOAT64);
    let old = TargetOptions {
        lang_version_major: 1,
        lang_version_minor: 2,
        emit_header: false,
    };
    let err = match translate(src, ShaderStage::Vertex, &fopts, &flags, &caps, Target::Msl, &old) {
        Err(e) => e,
        Ok(_) => panic!("unexpectedly succeeded: the old version floor has no double type"),
    };
    match err {
        PipelineError::Codegen(c) => {
            assert_eq!(c.construct, Construct::F64Arithmetic);
            assert_eq!(c.construct_text(), "f64 arithmetic");
        },
        other => panic!("expected a codegen error, got {:?}", other),
    }
    let new = TargetOptions::new();
    translate(src, ShaderStage::Vertex, &fopts, &flags, &caps, Target::Msl, &new)
        .expect("language version 2.1 has a double type");
}

#[test]
fn f64_is_never_expressible_in_wgsl() {
    let src = "void main() { double d = 1; gl_Position = vec4(0, 0, 0, 1); }";
    let fopts = FrontendOptions::new();
    let flags = ValidationFlags::all();
    let caps = Capabilities::from_bits(CAP_FLOAT64);
    let topts = TargetOptions::new();
    let err = match translate(src, ShaderStage::Vertex, &fopts, &flags, &caps, Target::Wgsl, &topts) {
        Err(e) => e,
        Ok(_) => panic!("unexpectedly succeeded: wgsl has no double type"),
    };
    match err {
        PipelineError::Codegen(c) => assert_eq!(c.construct, Construct::F64Arithmetic),
        other => panic!("expected a codegen error, got {:?}", other),
    }
}

#[test]
fn fewer_flags_accept_whatever_more_flags_accept() {
    // A shader whose only fault is a type error: a boolean stored into a
    // float local.
    let src = "\
void main() {
    float x = 1;
    x = (1 < 2);
}
";
    let fopts = FrontendOptions::new();
    let m = parse(src, ShaderStage::Vertex, &fopts).expect("parse");
    let err = match validate(&m, &ValidationFlags::all(), &Capabilities::empty()) {
        Err(e) => e,
        Ok(_) => panic!("unexpectedly succeeded: the type check rejects it"),
    };
    assert_eq!(err.category, ValidationCategory::TypeMismatch);
    let err2 = match validate(&m, &ValidationFlags::from_bits(FLAG_TYPES), &Capabilities::empty()) {
        Err(e) => e,
        Ok(_) => panic!("unexpectedly succeeded: the type flag alone still rejects it"),
    };
    assert_eq!(err2.category, ValidationCategory::TypeMismatch);
    validate(&m, &ValidationFlags::empty(), &Capabilities::empty())
        .expect("with no checks enabled the module passes");
}

#[test]
fn emitted_wgsl_reparses_and_validates_with_the_same_capabilities() {
    let fopts = FrontendOptions::new();
    let flags = ValidationFlags::all();
    let caps = Capabilities::from_bits(CAP_MULTISAMPLED_ARRAY_TEXTURES);
    let topts = TargetOptions::new();
    let out = translate(
        MS_ARRAY_FRAGMENT,
        ShaderStage::Fragment,
        &fopts,
        &flags,
        &caps,
        Target::Wgsl,
        &topts,
    )
    .expect("translation succeeds under the right capability set");
    let m2 = parse_wgsl(&out.text).expect("the emitted text parses back");
    validate(&m2, &flags, &caps).expect("and validates under the same capabilities");
    let err = match validate(&m2, &flags, &Capabilities::empty()) {
        Err(e) => e,
        Ok(_) => panic!("unexpectedly succeeded: but still needs the capability"),
    };
    assert_eq!(err.category, ValidationCategory::CapabilityMissing);
}

#[test]
fn glsl_to_wgsl_matches_the_general_pipeline() {
    let text = glsl_to_wgsl(MINIMAL_VERTEX, ShaderStage::Vertex).expect("compat pairing");
    assert!(text.contains("@vertex"));
    assert!(text.contains("@location ( 0 )"));
    assert!(text.contains("var < in > position : vec4f32 ;"));
}

#[test]
fn wgsl_to_msl_emits_the_stage_qualifier_and_bindings() {
    let wgsl = "\
@group ( 0 ) @binding ( 0 ) var < uniform > transform : vec4f32 ;
@group ( 0 ) @binding ( 3 ) var < handle > shadow_sampler : sampler ;
@fragment fn main ( ) {
    wg_frag_depth = 1 ;
}
";
    let (msl, info) = wgsl_to_msl(wgsl).expect("translation succeeds");
    assert!(msl.contains("fragment"));
    assert!(msl.contains("constant float4 transform"));
    assert_eq!(info.bindings.len(), 2);
    assert_eq!(info.bindings[0].group, 0);
    assert_eq!(info.bindings[0].binding, 0);
    assert_eq!(info.bindings[0].slot, 0);
    assert_eq!(info.bindings[1].group, 0);
    assert_eq!(info.bindings[1].binding, 3);
    assert_eq!(info.bindings[1].slot, 1);
}

#[test]
fn compute_stage_maps_to_the_msl_kernel_qualifier() {
    let src = "void main() { barrier(); }";
    let fopts = FrontendOptions::new();
    let out = translate(
        src,
        ShaderStage::Compute,
        &fopts,
        &ValidationFlags::all(),
        &Capabilities::empty(),
        Target::Msl,
        &TargetOptions::new(),
    )
    .expect("translation succeeds");
    assert!(out.text.contains("kernel"));
    assert!(out.text.contains("threadgroup_barrier"));
}

#[test]
fn header_option_only_adds_a_comment() {
    let fopts = FrontendOptions::new();
    let flags = ValidationFlags::all();
    let caps = Capabilities::empty();
    let plain = TargetOptions::new();
    let commented = TargetOptions {
        lang_version_major: 2,
        lang_version_minor: 1,
        emit_header: true,
    };
    let a = translate(
        MINIMAL_VERTEX,
        ShaderStage::Vertex,
        &fopts,
        &flags,
        &caps,
        Target::Wgsl,
        &plain,
    )
    .unwrap();
    let b = translate(
        MINIMAL_VERTEX,
        ShaderStage::Vertex,
        &fopts,
        &flags,
        &caps,
        Target::Wgsl,
        &commented,
    )
    .unwrap();
    assert_eq!(format!("// shader module\n{}", a.text), b.text);
}
