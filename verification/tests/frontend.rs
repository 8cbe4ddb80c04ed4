use shadertrans::caps::{Capabilities, ValidationFlags};
use shadertrans::err::{ParseErrorKind, ValidationCategory};
use shadertrans::front::{parse, Define, FrontendOptions};
use shadertrans::ir::{
    EntryPoint, Expr, Function, Global, GlobalClass, LocalVar, Module, ScalarKind, ShaderStage,
    Span, Stmt, Ty,
};
use shadertrans::valid::validate;

#[test]
fn missing_closing_brace_reports_end_of_input() {
    let src = "void main() {\n    gl_Position = vec4(0, 0, 0, 1);\n";
    let fopts = FrontendOptions::new();
    let err = match parse(src, ShaderStage::Vertex, &fopts) {
        Err(e) => e,
        Ok(_) => panic!("unexpectedly succeeded: the block never closes"),
    };
    assert_eq!(err.kind, ParseErrorKind::UnexpectedEof);
    assert_eq!(err.span.offset, src.chars().count());
    assert_eq!(err.span.line, 3);
    assert_eq!(err.message(), "unexpected end of input");
}

#[test]
fn fragment_builtin_in_a_vertex_parse_is_a_parse_error() {
    let src = "void main() { gl_FragDepth = 1; }";
    let fopts = FrontendOptions::new();
    let err = match parse(src, ShaderStage::Vertex, &fopts) {
        Err(e) => e,
        Ok(_) => panic!("unexpectedly succeeded: wrong stage for the built-in"),
    };
    assert_eq!(err.kind, ParseErrorKind::StageMismatch);
}

#[test]
fn barrier_outside_compute_is_a_parse_error() {
    let src = "void main() { barrier(); }";
    let fopts = FrontendOptions::new();
    let err = match parse(src, ShaderStage::Vertex, &fopts) {
        Err(e) => e,
        Ok(_) => panic!("unexpectedly succeeded: barriers are compute-only"),
    };
    assert_eq!(err.kind, ParseErrorKind::StageMismatch);
}

#[test]
fn unknown_identifier_is_reported_with_its_position() {
    let src = "void main() {\n    gl_Position = missing;\n}";
    let fopts = FrontendOptions::new();
    let err = match parse(src, ShaderStage::Vertex, &fopts) {
        Err(e) => e,
        Ok(_) => panic!("unexpectedly succeeded: nothing binds the name"),
    };
    assert_eq!(err.kind, ParseErrorKind::UnknownIdent);
    assert_eq!(err.span.line, 2);
    assert_eq!(err.span.col, 19);
}

#[test]
fn duplicate_declarations_are_rejected() {
    let src = "in vec4 p;\nin vec4 p;\nvoid main() { gl_Position = p; }";
    let fopts = FrontendOptions::new();
    let err = match parse(src, ShaderStage::Vertex, &fopts) {
        Err(e) => e,
        Ok(_) => panic!("unexpectedly succeeded: the name is taken"),
    };
    assert_eq!(err.kind, ParseErrorKind::DuplicateName);
}

#[test]
fn locals_cannot_shadow_globals() {
    let src = "in float p;\nvoid main() { float p = 1; gl_Position = vec4(0, 0, 0, 1); }";
    let fopts = FrontendOptions::new();
    let err = match parse(src, ShaderStage::Vertex, &fopts) {
        Err(e) => e,
        Ok(_) => panic!("unexpectedly succeeded: shadowing is refused"),
    };
    assert_eq!(err.kind, ParseErrorKind::DuplicateName);
}

#[test]
fn reserved_words_cannot_be_declared() {
    let src = "void main() { float vec4 = 1; }";
    let fopts = FrontendOptions::new();
    let err = match parse(src, ShaderStage::Vertex, &fopts) {
        Err(e) => e,
        Ok(_) => panic!("unexpectedly succeeded: the word is reserved"),
    };
    assert_eq!(err.kind, ParseErrorKind::ReservedWord);
}

#[test]
fn globals_are_read_only_in_shader_code() {
    let src = "in float p;\nvoid main() { p = 1; }";
    let fopts = FrontendOptions::new();
    let err = match parse(src, ShaderStage::Vertex, &fopts) {
        Err(e) => e,
        Ok(_) => panic!("unexpectedly succeeded: inputs cannot be assigned"),
    };
    assert_eq!(err.kind, ParseErrorKind::NotWritable);
}

#[test]
fn read_only_builtins_cannot_be_assigned() {
    let src = "void main() { gl_VertexIndex = 1; }";
    let fopts = FrontendOptions::new();
    let err = match parse(src, ShaderStage::Vertex, &fopts) {
        Err(e) => e,
        Ok(_) => panic!("unexpectedly succeeded: the built-in is read-only"),
    };
    assert_eq!(err.kind, ParseErrorKind::NotWritable);
}

#[test]
fn oversized_number_literals_are_rejected() {
    let src = "void main() { uint x = 4294967296; }";
    let fopts = FrontendOptions::new();
    let err = match parse(src, ShaderStage::Vertex, &fopts) {
        Err(e) => e,
        Ok(_) => panic!("unexpectedly succeeded: the literal does not fit"),
    };
    assert_eq!(err.kind, ParseErrorKind::NumberTooLarge);
}

#[test]
fn largest_number_literal_is_accepted() {
    let src = "void main() { uint x = 4294967295; gl_Position = vec4(0, 0, 0, 1); }";
    let fopts = FrontendOptions::new();
    parse(src, ShaderStage::Vertex, &fopts).expect("u32::MAX is representable");
}

#[test]
fn strange_characters_are_lexical_errors() {
    let src = "void main() { # }";
    let fopts = FrontendOptions::new();
    let err = match parse(src, ShaderStage::Vertex, &fopts) {
        Err(e) => e,
        Ok(_) => panic!("unexpectedly succeeded: no token starts with that"),
    };
    assert_eq!(err.kind, ParseErrorKind::UnexpectedChar);
    assert_eq!(err.span.col, 15);
}

#[test]
fn comments_are_skipped() {
    let src = "// a vertex shader\nvoid main() { // body\n    gl_Position = vec4(0, 0, 0, 1);\n}";
    let fopts = FrontendOptions::new();
    parse(src, ShaderStage::Vertex, &fopts).expect("comments lex away");
}

#[test]
fn defines_substitute_before_parsing() {
    let src = "void main() { uint x = LIMIT; gl_Position = vec4(0, 0, 0, 1); }";
    let fopts = FrontendOptions {
        entry_name: None,
        defines: vec![Define { name: "LIMIT".to_string(), value: "42".to_string() }],
    };
    parse(src, ShaderStage::Vertex, &fopts).expect("the define supplies the literal");
    let plain = FrontendOptions::new();
    let err = match parse(src, ShaderStage::Vertex, &plain) {
        Err(e) => e,
        Ok(_) => panic!("unexpectedly succeeded: without it the name is unbound"),
    };
    assert_eq!(err.kind, ParseErrorKind::UnknownIdent);
}

#[test]
fn a_define_value_must_be_a_single_token() {
    let src = "void main() { uint x = LIMIT; }";
    let fopts = FrontendOptions {
        entry_name: None,
        defines: vec![Define { name: "LIMIT".to_string(), value: "4 2".to_string() }],
    };
    let err = match parse(src, ShaderStage::Vertex, &fopts) {
        Err(e) => e,
        Ok(_) => panic!("unexpectedly succeeded: two tokens are refused"),
    };
    assert_eq!(err.kind, ParseErrorKind::InvalidDefine);
}

#[test]
fn the_entry_point_name_can_be_overridden() {
    let src = "void vs_main() { gl_Position = vec4(0, 0, 0, 1); }";
    let fopts = FrontendOptions {
        entry_name: Some("vs_main".to_string()),
        defines: Vec::new(),
    };
    let m = parse(src, ShaderStage::Vertex, &fopts).expect("the override names the function");
    assert_eq!(m.entry_points.len(), 1);
    assert_eq!(m.entry_points[0].name, "vs_main");
    let plain = FrontendOptions::new();
    let err = match parse(src, ShaderStage::Vertex, &plain) {
        Err(e) => e,
        Ok(_) => panic!("unexpectedly succeeded: no function is named main"),
    };
    assert_eq!(err.kind, ParseErrorKind::MissingEntry);
}

#[test]
fn a_hand_built_module_with_a_hidden_resource_violates_visibility() {
    let sp = Span { line: 0, col: 0, offset: 0 };
    let m = Module {
        globals: vec![Global {
            name: "hidden".to_string(),
            class: GlobalClass::UniformBuffer {
                group: 0,
                binding: 0,
                visibility: 0,
                ty: Ty::Scalar(ScalarKind::F32),
            },
            span: sp,
        }],
        functions: vec![Function {
            name: "main".to_string(),
            locals: vec![LocalVar { name: "x".to_string(), ty: Ty::Scalar(ScalarKind::F32) }],
            body: vec![Stmt::Local {
                index: 0,
                ty: Ty::Scalar(ScalarKind::F32),
                init: Expr::GlobalRef { index: 0 },
                span: sp,
            }],
            span: sp,
        }],
        entry_points: vec![EntryPoint {
            name: "main".to_string(),
            stage: ShaderStage::Vertex,
            function: 0,
        }],
    };
    let err = match validate(&m, &ValidationFlags::all(), &Capabilities::empty()) {
        Err(e) => e,
        Ok(_) => panic!("unexpectedly succeeded: the resource is visible to no stage"),
    };
    assert_eq!(err.category, ValidationCategory::VisibilityViolation);
}

#[test]
fn a_module_with_a_dangling_reference_is_not_well_formed() {
    let sp = Span { line: 0, col: 0, offset: 0 };
    let m = Module {
        globals: Vec::new(),
        functions: vec![Function {
            name: "main".to_string(),
            locals: Vec::new(),
            body: vec![Stmt::AssignBuiltin {
                builtin: shadertrans::ir::BuiltinVar::Position,
                value: Expr::GlobalRef { index: 7 },
                span: sp,
            }],
            span: sp,
        }],
        entry_points: vec![EntryPoint {
            name: "main".to_string(),
            stage: ShaderStage::Vertex,
            function: 0,
        }],
    };
    let err = match validate(&m, &ValidationFlags::empty(), &Capabilities::empty()) {
        Err(e) => e,
        Ok(_) => panic!("unexpectedly succeeded: the reference resolves to nothing"),
    };
    assert_eq!(err.category, ValidationCategory::Other);
}
