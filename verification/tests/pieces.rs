use specta::ts::ExportConfiguration;
use specta::{DataType, ObjectField, ObjectType, PrimitiveType};
use tauri_specta::layout;
use tauri_specta::model::{Dialect, FunctionDescriptor, Parameter, TypeRegistry};
use tauri_specta::pipeline;
use tauri_specta::text;

fn strings(items: &[&str]) -> Vec<String> {
    items.iter().map(|s| s.to_string()).collect()
}

#[test]
fn join_puts_the_separator_between_neighbours() {
    assert_eq!(text::join(&strings(&[]), ", "), "");
    assert_eq!(text::join(&strings(&["a"]), ", "), "a");
    assert_eq!(text::join(&strings(&["a", "b", "c"]), ", "), "a, b, c");
    assert_eq!(text::join(&strings(&["a", "", "c"]), "\n"), "a\n\nc");
    assert_eq!(text::join(&strings(&["a", "b"]), ""), "ab");
}

#[test]
fn forwarding_is_empty_without_names() {
    assert_eq!(layout::forwarding_expression(Dialect::Typed, &strings(&[])), "");
    assert_eq!(layout::forwarding_expression(Dialect::Untyped, &strings(&[])), "");
}

#[test]
fn forwarding_separators_differ_by_dialect() {
    let names = strings(&["userId", "flag", "x"]);
    assert_eq!(layout::forwarding_expression(Dialect::Typed, &names), ", { userId, flag, x }");
    assert_eq!(layout::forwarding_expression(Dialect::Untyped, &names), ", { userId,flag,x }");
    assert_eq!(layout::forward_separator(Dialect::Typed), ", ");
    assert_eq!(layout::forward_separator(Dialect::Untyped), ",");
}

#[test]
fn forwarding_of_one_name_is_the_same_in_both_dialects() {
    let names = strings(&["name"]);
    assert_eq!(layout::forwarding_expression(Dialect::Typed, &names), ", { name }");
    assert_eq!(layout::forwarding_expression(Dialect::Untyped, &names), ", { name }");
}

#[test]
fn parameter_and_documentation_lines() {
    assert_eq!(layout::typed_parameter("userId", "number"), "userId: number");
    assert_eq!(layout::param_line("number", "userId"), "@param {number} userId");
    assert_eq!(layout::returns_line("string | null"), "@returns {Promise<string | null>} ");
}

#[test]
fn bridge_call_carries_the_type_in_the_typed_dialect_only() {
    assert_eq!(layout::bridge_call(Dialect::Typed, "User[]"), "invoke<User[]>");
    assert_eq!(layout::bridge_call(Dialect::Untyped, "User[]"), "invoke");
}

#[test]
fn function_source_lays_out_the_pieces() {
    let typed = layout::function_source(Dialect::Typed, "/** d */\n", "getUser", "userId: number", "User", "get_user", ", { userId }");
    assert_eq!(typed, "/** d */\nexport function getUser(userId: number) {\n    return invoke<User>(\"get_user\", { userId })\n}");
    let untyped = layout::function_source(Dialect::Untyped, "", "getUser", "userId", "User", "get_user", ", { userId }");
    assert_eq!(untyped, "export function getUser(userId) {\n    return invoke(\"get_user\", { userId })\n}");
}

#[test]
fn document_separates_sections_by_blank_lines() {
    let typed = layout::document(Dialect::Typed, "F", "T");
    assert_eq!(typed, format!("{}\n\n{}\n\nF\n\nT\n", layout::DO_NOT_EDIT, layout::globals_block(Dialect::Typed)));
    let untyped = layout::document(Dialect::Untyped, "F", "ignored");
    assert_eq!(untyped, format!("{}\n\nconst invoke = window.__TAURI_INVOKE__;\n\nF\n", layout::DO_NOT_EDIT));
}

#[test]
fn default_banner_switches_the_linter_off() {
    assert_eq!(layout::ESLINT_DISABLE, "/* eslint-disable */\n");
    assert!(layout::DO_NOT_EDIT.starts_with("// This file was generated by"));
    assert!(layout::DO_NOT_EDIT.ends_with("Do not edit this file manually."));
}

#[test]
fn camel_names_follow_word_boundaries() {
    let args = vec![
        Parameter { name: "user_id".to_string(), ty: DataType::Any },
        Parameter { name: "flag".to_string(), ty: DataType::Any },
        Parameter { name: "XMLHttpRequest".to_string(), ty: DataType::Any },
    ];
    assert_eq!(pipeline::camel_parameter_names(&args), strings(&["userId", "flag", "xmlHttpRequest"]));
}

#[test]
fn parameter_types_come_in_order_or_not_at_all() {
    let cfg = ExportConfiguration::default();
    let good = vec![
        Parameter { name: "a".to_string(), ty: DataType::Primitive(PrimitiveType::i32) },
        Parameter { name: "b".to_string(), ty: DataType::List(Box::new(DataType::Primitive(PrimitiveType::String))) },
    ];
    assert_eq!(pipeline::format_parameters(&cfg, &good).unwrap(), strings(&["number", "string[]"]));
    let bad = vec![
        Parameter { name: "a".to_string(), ty: DataType::Primitive(PrimitiveType::i32) },
        Parameter { name: "b".to_string(), ty: DataType::Primitive(PrimitiveType::u64) },
    ];
    assert!(pipeline::format_parameters(&cfg, &bad).is_err());
}

#[test]
fn render_function_in_each_dialect() {
    let cfg = ExportConfiguration::default();
    let f = FunctionDescriptor {
        name: "get_user".to_string(),
        args: vec![Parameter { name: "user_id".to_string(), ty: DataType::Primitive(PrimitiveType::u32) }],
        result: DataType::Nullable(Box::new(DataType::Primitive(PrimitiveType::String))),
        docs: vec![],
    };
    assert_eq!(
        pipeline::render_function(Dialect::Typed, &cfg, &f).unwrap(),
        "export function getUser(userId: number) {\n    return invoke<string | null>(\"get_user\", { userId })\n}"
    );
    assert_eq!(
        pipeline::render_function(Dialect::Untyped, &cfg, &f).unwrap(),
        "/**\n * @param {number} userId\n * @returns {Promise<string | null>} \n */\nexport function getUser(userId) {\n    return invoke(\"get_user\", { userId })\n}"
    );
}

#[test]
fn type_block_has_one_line_per_present_entry() {
    let named = |name: &'static str| {
        ObjectType {
            generics: vec![],
            fields: vec![ObjectField { key: "id", optional: false, flatten: false, ty: DataType::Primitive(PrimitiveType::i32) }],
            tag: None,
        }
        .to_named(name)
    };
    let registry = TypeRegistry { entries: vec![Some(named("A")), None, None, Some(named("B")), Some(named("C"))] };
    assert_eq!(pipeline::present_descriptors(&registry.entries).len(), 3);
    let out = pipeline::render_type_block(&ExportConfiguration::default(), &registry).unwrap();
    assert_eq!(out, "export type A = { id: number }\nexport type B = { id: number }\nexport type C = { id: number }");
    assert_eq!(out.lines().count(), 3);
    let none = TypeRegistry { entries: vec![None, None] };
    assert_eq!(pipeline::render_type_block(&ExportConfiguration::default(), &none).unwrap(), "");
}

#[test]
fn reserved_type_name_fails_the_block() {
    let bad = ObjectType { generics: vec![], fields: vec![], tag: None }.to_named("class");
    let registry = TypeRegistry { entries: vec![Some(bad)] };
    assert!(pipeline::render_type_block(&ExportConfiguration::default(), &registry).is_err());
}

#[test]
fn export_document_prepends_the_banner() {
    let cfg = ExportConfiguration::default();
    let fs: Vec<FunctionDescriptor> = vec![];
    let registry = TypeRegistry { entries: vec![] };
    let out = pipeline::export_document(Dialect::Untyped, &cfg, &fs, &registry, "#!\n").unwrap();
    assert_eq!(out, format!("#!\n{}\n\nconst invoke = window.__TAURI_INVOKE__;\n\n\n", layout::DO_NOT_EDIT));
}

#[test]
fn annotate_pairs_names_with_types() {
    let out = pipeline::annotate(&strings(&["userId", "flag"]), &strings(&["number", "boolean"]));
    assert_eq!(out, strings(&["userId: number", "flag: boolean"]));
    assert_eq!(pipeline::annotate(&strings(&[]), &strings(&[])), strings(&[]));
}

#[test]
fn documentation_lines_by_dialect() {
    let docs = strings(&["First.", "Second."]);
    let names = strings(&["userId", "flag"]);
    let types = strings(&["number", "boolean"]);
    assert_eq!(pipeline::documentation_lines(Dialect::Typed, &docs, &names, &types, "string"), docs);
    assert_eq!(
        pipeline::documentation_lines(Dialect::Untyped, &docs, &names, &types, "string"),
        strings(&["First.", "Second.", "@param {number} userId", "@param {boolean} flag", "@returns {Promise<string>} "])
    );
    assert_eq!(
        pipeline::documentation_lines(Dialect::Untyped, &strings(&[]), &strings(&[]), &strings(&[]), "null"),
        strings(&["@returns {Promise<null>} "])
    );
}

#[test]
fn documentation_block_is_empty_without_lines() {
    assert_eq!(pipeline::documentation_block(&strings(&[])), "");
    assert_eq!(pipeline::documentation_block(&strings(&["One.", "   Two."])), "/**\n * One.\n * Two.\n */\n");
}
