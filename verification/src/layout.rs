//! The fixed text of a generated file and the way its pieces are put
//! together. Everything here works on plain strings: which type has which
//! spelling, and which name has which camel-cased form, is decided elsewhere.

use vstd::prelude::*;
use crate::model::Dialect;
use crate::text::{join, joined, texts};

verus! {

/// The notice that every generated document starts with.
pub const DO_NOT_EDIT: &'static str = "// This file was generated by [tauri-specta](https://github.com/oscartbeaumont/tauri-specta). Do not edit this file manually.";

/// The banner that is written ahead of the document unless the caller
/// supplies another: it switches the linter off for the file.
pub const ESLINT_DISABLE: &'static str = "/* eslint-disable */\n";

/// The binding through which the generated functions reach the backend.
pub const INVOKE_BINDING: &'static str = "const invoke = window.__TAURI_INVOKE__;";

/// The ambient declaration of the bridge: it takes a command name and an
/// optional record of named arguments, and returns a promise of a type that
/// the caller picks.
pub const BRIDGE_DECLARATION: &'static str = "declare global {\n    interface Window {\n        __TAURI_INVOKE__<T>(cmd: string, args?: Record<string, unknown>): Promise<T>;\n    }\n}";

/// The globals block of a dialect.
pub open spec fn globals_text(dialect: Dialect) -> Seq<char> {
    match dialect {
        Dialect::Typed => BRIDGE_DECLARATION@ + "\n\n"@ + INVOKE_BINDING@,
        Dialect::Untyped => INVOKE_BINDING@,
    }
}

/// The record of arguments handed to the bridge: nothing at all without
/// names, else `, { ` and ` }` around the names, with the dialect's separator
/// between them.
pub open spec fn forwarding_text(dialect: Dialect, names: Seq<Seq<char>>) -> Seq<char> {
    if names.len() == 0 {
        Seq::empty()
    } else {
        ", { "@ + joined(names, dialect.forward_separator()) + " }"@
    }
}

/// A declared parameter that carries its type: `name: type`.
pub open spec fn typed_parameter_text(name: Seq<char>, ty: Seq<char>) -> Seq<char> {
    name + ": "@ + ty
}

/// The documentation line of a parameter: `@param {type} name`.
pub open spec fn param_line_text(ty: Seq<char>, name: Seq<char>) -> Seq<char> {
    "@param {"@ + ty + "} "@ + name
}

/// The documentation line of the result: `@returns {Promise<type>} `.
pub open spec fn returns_line_text(ty: Seq<char>) -> Seq<char> {
    "@returns {Promise<"@ + ty + ">} "@
}

/// The name of the bridge as a function's body calls it: with the result's
/// type in angle brackets where the dialect annotates types.
pub open spec fn bridge_text(dialect: Dialect, ret: Seq<char>) -> Seq<char> {
    if dialect.annotates_types() {
        "invoke<"@ + ret + ">"@
    } else {
        "invoke"@
    }
}

/// One exported function. `name` is the command's name as the backend
/// registered it and goes into the call untouched; `camel` is the name the
/// function is exported under.
pub open spec fn function_text(
    dialect: Dialect,
    doc: Seq<char>,
    camel: Seq<char>,
    params: Seq<char>,
    ret: Seq<char>,
    name: Seq<char>,
    forwarding: Seq<char>,
) -> Seq<char> {
    doc + "export function "@ + camel + "("@ + params + ") {\n    return "@ + bridge_text(
        dialect,
        ret,
    ) + "(\""@ + name + "\""@ + forwarding + ")\n}"@
}

/// The function block: the functions with a blank line between each two.
pub open spec fn function_block_text(functions: Seq<Seq<char>>) -> Seq<char> {
    joined(functions, "\n\n"@)
}

/// The type block: the declarations, one per line.
pub open spec fn type_block_text(declarations: Seq<Seq<char>>) -> Seq<char> {
    joined(declarations, "\n"@)
}

/// The whole document: notice, globals and function block, then the type
/// block where the dialect has one, a blank line between each two sections
/// and a line end after the last.
pub open spec fn document_text(dialect: Dialect, functions: Seq<char>, types: Seq<char>) -> Seq<char> {
    let head = DO_NOT_EDIT@ + "\n\n"@ + globals_text(dialect) + "\n\n"@ + functions;
    if dialect.annotates_types() {
        head + "\n\n"@ + types + "\n"@
    } else {
        head + "\n"@
    }
}

/// The separator between forwarded argument names.
pub fn forward_separator(dialect: Dialect) -> (out: &'static str)
    ensures
        out@ == dialect.forward_separator(),
{
    match dialect {
        Dialect::Typed => ", ",
        Dialect::Untyped => ",",
    }
}

/// Renders the globals block of `dialect`.
pub fn globals_block(dialect: Dialect) -> (out: String)
    ensures
        out@ == globals_text(dialect),
{
    match dialect {
        Dialect::Typed => {
            let mut out = String::from_str(BRIDGE_DECLARATION);
            out.append("\n\n");
            out.append(INVOKE_BINDING);
            out
        },
        Dialect::Untyped => String::from_str(INVOKE_BINDING),
    }
}

/// Renders the record of arguments handed to the bridge.
pub fn forwarding_expression(dialect: Dialect, names: &Vec<String>) -> (out: String)
    ensures
        out@ == forwarding_text(dialect, texts(names@)),
{
    if names.len() == 0 {
        String::new()
    } else {
        let inner = join(names, forward_separator(dialect));
        let mut out = String::from_str(", { ");
        out.append(inner.as_str());
        out.append(" }");
        out
    }
}

/// Renders a declared parameter that carries its type.
pub fn typed_parameter(name: &str, ty: &str) -> (out: String)
    ensures
        out@ == typed_parameter_text(name@, ty@),
{
    let mut out = String::from_str(name);
    out.append(": ");
    out.append(ty);
    out
}

/// Renders the documentation line of a parameter.
pub fn param_line(ty: &str, name: &str) -> (out: String)
    ensures
        out@ == param_line_text(ty@, name@),
{
    let mut out = String::from_str("@param {");
    out.append(ty);
    out.append("} ");
    out.append(name);
    out
}

/// Renders the documentation line of the result.
pub fn returns_line(ty: &str) -> (out: String)
    ensures
        out@ == returns_line_text(ty@),
{
    let mut out = String::from_str("@returns {Promise<");
    out.append(ty);
    out.append(">} ");
    out
}

/// Renders the name of the bridge as a function's body calls it.
pub fn bridge_call(dialect: Dialect, ret: &str) -> (out: String)
    ensures
        out@ == bridge_text(dialect, ret@),
{
    match dialect {
        Dialect::Typed => {
            let mut out = String::from_str("invoke<");
            out.append(ret);
            out.append(">");
            out
        },
        Dialect::Untyped => String::from_str("invoke"),
    }
}

/// Renders one exported function from its pieces.
pub fn function_source(
    dialect: Dialect,
    doc: &str,
    camel: &str,
    params: &str,
    ret: &str,
    name: &str,
    forwarding: &str,
) -> (out: String)
    ensures
        out@ == function_text(dialect, doc@, camel@, params@, ret@, name@, forwarding@),
{
    let bridge = bridge_call(dialect, ret);
    let mut out = String::from_str(doc);
    out.append("export function ");
    out.append(camel);
    out.append("(");
    out.append(params);
    out.append(") {\n    return ");
    out.append(bridge.as_str());
    out.append("(\"");
    out.append(name);
    out.append("\"");
    out.append(forwarding);
    out.append(")\n}");
    out
}

/// Puts the sections of a document together.
pub fn document(dialect: Dialect, functions: &str, types: &str) -> (out: String)
    ensures
        out@ == document_text(dialect, functions@, types@),
{
    let globals = globals_block(dialect);
    let mut out = String::from_str(DO_NOT_EDIT);
    out.append("\n\n");
    out.append(globals.as_str());
    out.append("\n\n");
    out.append(functions);
    match dialect {
        Dialect::Typed => {
            out.append("\n\n");
            out.append(types);
            out.append("\n");
        },
        Dialect::Untyped => {
            out.append("\n");
        },
    }
    out
}

} // verus!
