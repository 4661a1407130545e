use specta::ts::{BigIntExportBehavior, ExportConfiguration, TsExportError};
use specta::{DataType, NamedDataType, ObjectField, ObjectType, PrimitiveType};
use tauri_specta::layout::{DO_NOT_EDIT, ESLINT_DISABLE};
use tauri_specta::model::{ExportFailure, FunctionDescriptor, Parameter, TypeRegistry};
use tauri_specta::ts;

fn primitive(p: PrimitiveType) -> DataType {
    DataType::Primitive(p)
}

fn parameter(name: &str, ty: DataType) -> Parameter {
    Parameter { name: name.to_string(), ty }
}

fn descriptor(name: &str, args: Vec<Parameter>, result: DataType, docs: &[&str]) -> FunctionDescriptor {
    FunctionDescriptor {
        name: name.to_string(),
        args,
        result,
        docs: docs.iter().map(|line| line.to_string()).collect(),
    }
}

fn greet() -> FunctionDescriptor {
    descriptor(
        "greet",
        vec![parameter("name", primitive(PrimitiveType::String))],
        primitive(PrimitiveType::String),
        &[],
    )
}

fn record(name: &'static str, field: &'static str, ty: DataType) -> NamedDataType {
    ObjectType {
        generics: vec![],
        fields: vec![ObjectField { key: field, optional: false, flatten: false, ty }],
        tag: None,
    }
    .to_named(name)
}

const TYPED_GLOBALS: &str = "declare global {\n    interface Window {\n        __TAURI_INVOKE__<T>(cmd: string, args?: Record<string, unknown>): Promise<T>;\n    }\n}\n\nconst invoke = window.__TAURI_INVOKE__;";

const GREET: &str = "export function greet(name: string) {\n    return invoke<string>(\"greet\", { name })\n}";

#[test]
fn typed_globals_declare_the_bridge() {
    assert_eq!(ts::globals(), TYPED_GLOBALS);
}

#[test]
fn typed_greet_end_to_end() {
    let out = ts::render_functions(vec![greet()], &ExportConfiguration::default()).unwrap();
    assert_eq!(out, GREET);
}

#[test]
fn typed_call_keeps_the_registered_name() {
    let f = descriptor("get_user", vec![parameter("user_id", primitive(PrimitiveType::i32))], primitive(PrimitiveType::bool), &[]);
    let out = ts::render_functions(vec![f], &ExportConfiguration::default()).unwrap();
    assert!(out.contains("invoke<boolean>(\"get_user\", { userId })"));
    assert!(out.contains("export function getUser(userId: number)"));
    assert!(!out.contains("\"getUser\""));
}

#[test]
fn typed_without_parameters_forwards_nothing() {
    let f = descriptor("name", vec![], primitive(PrimitiveType::String), &[]);
    let out = ts::render_functions(vec![f], &ExportConfiguration::default()).unwrap();
    assert_eq!(out, "export function name() {\n    return invoke<string>(\"name\")\n}");
}

#[test]
fn typed_parameters_are_camel_cased() {
    let f = descriptor(
        "original_name",
        vec![parameter("user_id", primitive(PrimitiveType::i32)), parameter("flag", primitive(PrimitiveType::bool))],
        primitive(PrimitiveType::String),
        &[],
    );
    let out = ts::render_functions(vec![f], &ExportConfiguration::default()).unwrap();
    assert_eq!(
        out,
        "export function originalName(userId: number, flag: boolean) {\n    return invoke<string>(\"original_name\", { userId, flag })\n}"
    );
}

#[test]
fn typed_documentation_holds_the_raw_lines_only() {
    let f = descriptor(
        "greet",
        vec![parameter("name", primitive(PrimitiveType::String))],
        primitive(PrimitiveType::String),
        &["Says hello.", "  Twice."],
    );
    let out = ts::render_functions(vec![f], &ExportConfiguration::default()).unwrap();
    assert_eq!(out, format!("/**\n * Says hello.\n * Twice.\n */\n{GREET}"));
}

#[test]
fn typed_functions_are_separated_by_a_blank_line() {
    let second = descriptor("ping", vec![], primitive(PrimitiveType::bool), &[]);
    let out = ts::render_functions(vec![greet(), second], &ExportConfiguration::default()).unwrap();
    assert_eq!(out, format!("{GREET}\n\nexport function ping() {{\n    return invoke<boolean>(\"ping\")\n}}"));
}

#[test]
fn typed_no_functions_give_an_empty_block() {
    let out = ts::render_functions(vec![], &ExportConfiguration::default()).unwrap();
    assert_eq!(out, "");
}

#[test]
fn typed_rendering_twice_gives_the_same_bytes() {
    let cfg = ExportConfiguration::default();
    let registry = || TypeRegistry {
        entries: vec![Some(record("User", "id", primitive(PrimitiveType::i32))), None],
    };
    let first = ts::render(vec![greet()], registry(), &cfg).unwrap();
    let second = ts::render(vec![greet()], registry(), &cfg).unwrap();
    assert_eq!(first, second);
}

#[test]
fn typed_document_has_its_sections_in_order() {
    let registry = TypeRegistry {
        entries: vec![
            None,
            Some(record("User", "id", primitive(PrimitiveType::i32))),
            None,
            Some(record("Flag", "on", primitive(PrimitiveType::bool))),
        ],
    };
    let out = ts::render(vec![greet()], registry, &ExportConfiguration::default()).unwrap();
    assert_eq!(
        out,
        format!(
            "{DO_NOT_EDIT}\n\n{TYPED_GLOBALS}\n\n{GREET}\n\nexport type User = {{ id: number }}\nexport type Flag = {{ on: boolean }}\n"
        )
    );
}

#[test]
fn typed_absent_entries_declare_nothing() {
    let with_gaps = TypeRegistry {
        entries: vec![None, Some(record("User", "id", primitive(PrimitiveType::i32))), None],
    };
    let without = TypeRegistry { entries: vec![Some(record("User", "id", primitive(PrimitiveType::i32)))] };
    let cfg = ExportConfiguration::default();
    let a = ts::render(vec![greet()], with_gaps, &cfg).unwrap();
    let b = ts::render(vec![greet()], without, &cfg).unwrap();
    assert_eq!(a, b);
    assert_eq!(a.matches("export type ").count(), 1);
    assert!(!a.contains("export type User = { id: number }\n\n"));
}

#[test]
fn typed_empty_registry_leaves_an_empty_type_block() {
    let out = ts::render(vec![greet()], TypeRegistry { entries: vec![] }, &ExportConfiguration::default()).unwrap();
    assert_eq!(out, format!("{DO_NOT_EDIT}\n\n{TYPED_GLOBALS}\n\n{GREET}\n\n\n"));
}

#[test]
fn typed_parameter_failure_aborts_the_batch() {
    let bad = descriptor("count", vec![parameter("n", primitive(PrimitiveType::i64))], primitive(PrimitiveType::bool), &[]);
    let r = ts::render_functions(vec![greet(), bad, greet()], &ExportConfiguration::default());
    assert!(matches!(r, Err(ExportFailure::TypeFormatting(TsExportError::BigIntForbidden(_)))));
}

#[test]
fn typed_reports_the_parameter_before_the_result() {
    let cfg = ExportConfiguration::default().bigint(BigIntExportBehavior::FailWithReason("no"));
    let f = descriptor("f", vec![parameter("n", primitive(PrimitiveType::i64))], primitive(PrimitiveType::u64), &[]);
    match ts::render_functions(vec![f], &cfg) {
        Err(ExportFailure::TypeFormatting(e)) => assert!(e.to_string().contains("'i64'")),
        other => panic!("unexpected outcome: {other:?}"),
    }
}

#[test]
fn typed_declaration_failure_aborts_the_document() {
    let registry = TypeRegistry {
        entries: vec![
            Some(record("User", "id", primitive(PrimitiveType::i32))),
            Some(record("Big", "n", primitive(PrimitiveType::u128))),
        ],
    };
    let r = ts::render(vec![greet()], registry, &ExportConfiguration::default());
    assert!(matches!(r, Err(ExportFailure::TypeFormatting(TsExportError::BigIntForbidden(_)))));
}

#[test]
fn typed_configuration_decides_the_spelling() {
    let cfg = ExportConfiguration::default().bigint(BigIntExportBehavior::Number);
    let f = descriptor("count", vec![parameter("n", primitive(PrimitiveType::i64))], primitive(PrimitiveType::u64), &[]);
    let out = ts::render_functions(vec![f], &cfg).unwrap();
    assert_eq!(out, "export function count(n: number) {\n    return invoke<number>(\"count\", { n })\n}");
}

#[test]
fn typed_export_puts_the_banner_first() {
    let model = (vec![greet()], TypeRegistry { entries: vec![] });
    let out = ts::export_with_cfg(model, ExportConfiguration::default()).unwrap();
    assert_eq!(out, format!("/* eslint-disable */\n{DO_NOT_EDIT}\n\n{TYPED_GLOBALS}\n\n{GREET}\n\n\n"));
    assert!(out.starts_with(ESLINT_DISABLE));
}

#[test]
fn typed_export_takes_another_banner() {
    let model = (vec![greet()], TypeRegistry { entries: vec![] });
    let out = ts::export_with_cfg_with_header(model, ExportConfiguration::default(), "// mine\n").unwrap();
    assert_eq!(out, format!("// mine\n{DO_NOT_EDIT}\n\n{TYPED_GLOBALS}\n\n{GREET}\n\n\n"));
}

#[test]
fn typed_export_uses_the_default_configuration() {
    let ok = ts::export(Ok((vec![greet()], TypeRegistry { entries: vec![] }))).unwrap();
    assert_eq!(ok, format!("/* eslint-disable */\n{DO_NOT_EDIT}\n\n{TYPED_GLOBALS}\n\n{GREET}\n\n\n"));
    let bad = descriptor("count", vec![], primitive(PrimitiveType::i64), &[]);
    let r = ts::export(Ok((vec![bad], TypeRegistry { entries: vec![] })));
    assert!(matches!(r, Err(ExportFailure::TypeFormatting(TsExportError::BigIntForbidden(_)))));
}

#[test]
fn typed_export_hands_on_an_upstream_failure() {
    let upstream = specta::ExportError::InvalidType(specta::ImplLocation::internal_new("here.rs:1:1"), "broken");
    match ts::export(Err(upstream.clone())) {
        Err(ExportFailure::UpstreamModel(e)) => assert_eq!(e, upstream),
        other => panic!("unexpected outcome: {other:?}"),
    }
}

fn commented(name: &'static str, comments: &'static [&'static str]) -> NamedDataType {
    let mut ty = record(name, "id", primitive(PrimitiveType::i32));
    ty.comments = comments;
    ty
}

fn slashes(lines: &[&str]) -> String {
    format!("// {}\n", lines.join(" | "))
}

#[test]
fn typed_declaration_carries_its_comment() {
    let registry = TypeRegistry { entries: vec![Some(commented("User", &["A user.", "  Known by id."]))] };
    let out = ts::render(vec![greet()], registry, &ExportConfiguration::default()).unwrap();
    assert_eq!(
        out,
        format!(
            "{DO_NOT_EDIT}\n\n{TYPED_GLOBALS}\n\n{GREET}\n\n/**\n * A user.\n * Known by id.\n */\nexport type User = {{ id: number }}\n"
        )
    );
}

#[test]
fn typed_declaration_follows_the_configured_formatter() {
    let cfg = ExportConfiguration::default().comment_style(Some(slashes));
    let registry = || TypeRegistry { entries: vec![Some(commented("User", &["A user.", "Known by id."]))] };
    let first = ts::render(vec![greet()], registry(), &cfg).unwrap();
    assert!(first.ends_with("\n\n// A user. | Known by id.\nexport type User = { id: number }\n"));
    assert!(first.starts_with(&format!("{DO_NOT_EDIT}\n\n{TYPED_GLOBALS}\n\n{GREET}\n\n")));
    assert_eq!(first, ts::render(vec![greet()], registry(), &cfg).unwrap());
}

#[test]
fn typed_declaration_without_a_formatter_has_no_comment() {
    let cfg = ExportConfiguration::default().comment_style(None);
    let registry = TypeRegistry { entries: vec![Some(commented("User", &["A user."]))] };
    let out = ts::render(vec![greet()], registry, &cfg).unwrap();
    assert!(out.ends_with(&format!("{GREET}\n\nexport type User = {{ id: number }}\n")));
}

#[test]
fn typed_function_failure_comes_before_any_declaration() {
    let cfg = ExportConfiguration::default().comment_style(Some(slashes));
    let bad = descriptor("count", vec![], primitive(PrimitiveType::i64), &[]);
    let registry = TypeRegistry { entries: vec![Some(commented("User", &["A user."]))] };
    let r = ts::export_with_cfg(( vec![greet(), bad], registry), cfg);
    assert!(matches!(r, Err(ExportFailure::TypeFormatting(TsExportError::BigIntForbidden(_)))));
}
