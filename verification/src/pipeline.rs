//! The renderer that both dialects share: from descriptors and a
//! configuration to the function block and the type block of a document. A
//! type that has no spelling stops the work at once, and the failure that
//! comes first is the one reported.

use vstd::prelude::*;
use specta::NamedDataType;
use specta::ts::ExportConfiguration;
use specta::ts::TsExportError;
use crate::formatting::{
    camel_case, doc_comment, format_declaration, format_inline, formats_comments_as_function,
    inline_type, js_doc, lower_camel_case, text_of, trimmed, trimmed_start, type_declaration,
};
use crate::layout::{
    document, document_text, forwarding_expression, forwarding_text, function_block_text,
    function_source, function_text, param_line, param_line_text, returns_line,
    returns_line_text, type_block_text, typed_parameter, typed_parameter_text,
};
use crate::model::{Dialect, ExportFailure, FunctionDescriptor, Parameter, TypeRegistry};
use crate::text::{
    collected, join, joined, lemma_collected_first_failure, lemma_collected_next_success, texts,
};

verus! {

/// The camel-cased names of `args`, in order.
pub open spec fn camel_names(args: Seq<Parameter>) -> Seq<Seq<char>> {
    Seq::new(args.len(), |i: int| lower_camel_case(args[i].name@))
}

/// The spelling of each parameter's type, in order.
pub open spec fn parameter_spellings(cfg: ExportConfiguration, args: Seq<Parameter>) -> Seq<
    Result<Seq<char>, TsExportError>,
> {
    Seq::new(args.len(), |i: int| inline_type(cfg, args[i].ty))
}

/// The spellings of the parameters' types, or the first failure among them.
pub open spec fn parameter_types(cfg: ExportConfiguration, args: Seq<Parameter>) -> Result<
    Seq<Seq<char>>,
    TsExportError,
> {
    collected(parameter_spellings(cfg, args))
}

/// The spellings that a function needs: those of its parameters and that of
/// its result. The typed dialect asks for the parameters first, the untyped
/// one for the result first; the first failure in that order is the outcome.
pub open spec fn signature_types(dialect: Dialect, cfg: ExportConfiguration, f: FunctionDescriptor) -> Result<
    (Seq<Seq<char>>, Seq<char>),
    TsExportError,
> {
    let params = parameter_types(cfg, f.args@);
    let ret = inline_type(cfg, f.result);
    if dialect.annotates_types() {
        match params {
            Err(e) => Err(e),
            Ok(p) => match ret {
                Err(e) => Err(e),
                Ok(r) => Ok((p, r)),
            },
        }
    } else {
        match ret {
            Err(e) => Err(e),
            Ok(r) => match params {
                Err(e) => Err(e),
                Ok(p) => Ok((p, r)),
            },
        }
    }
}

/// Each name followed by its type.
pub open spec fn annotated(names: Seq<Seq<char>>, types: Seq<Seq<char>>) -> Seq<Seq<char>> {
    Seq::new(names.len(), |i: int| typed_parameter_text(names[i], types[i]))
}

/// The declared parameter list: the names, each with its type where the
/// dialect annotates types, with `, ` between them.
pub open spec fn declared_parameters(dialect: Dialect, names: Seq<Seq<char>>, types: Seq<Seq<char>>) -> Seq<
    char,
> {
    if dialect.annotates_types() {
        joined(annotated(names, types), ", "@)
    } else {
        joined(names, ", "@)
    }
}

/// One documentation line per parameter.
pub open spec fn param_lines(names: Seq<Seq<char>>, types: Seq<Seq<char>>) -> Seq<Seq<char>> {
    Seq::new(names.len(), |i: int| param_line_text(types[i], names[i]))
}

/// The lines of a function's documentation comment: the descriptor's own,
/// and after them, where the dialect synthesizes documentation, one line per
/// parameter and one for the result.
pub open spec fn doc_lines(
    dialect: Dialect,
    docs: Seq<Seq<char>>,
    names: Seq<Seq<char>>,
    types: Seq<Seq<char>>,
    ret: Seq<char>,
) -> Seq<Seq<char>> {
    if dialect.synthesizes_docs() {
        (docs + param_lines(names, types)).push(returns_line_text(ret))
    } else {
        docs
    }
}

/// The exported function for `f`, given the spellings of its types.
pub open spec fn function_from_types(
    dialect: Dialect,
    f: FunctionDescriptor,
    types: Seq<Seq<char>>,
    ret: Seq<char>,
) -> Seq<char> {
    let names = camel_names(f.args@);
    function_text(
        dialect,
        doc_comment(trimmed(doc_lines(dialect, texts(f.docs@), names, types, ret))),
        lower_camel_case(f.name@),
        declared_parameters(dialect, names, types),
        ret,
        f.name@,
        forwarding_text(dialect, names),
    )
}

/// The exported function for `f`, or the first failure among its types.
pub open spec fn rendered_function(dialect: Dialect, cfg: ExportConfiguration, f: FunctionDescriptor) -> Result<
    Seq<char>,
    TsExportError,
> {
    match signature_types(dialect, cfg, f) {
        Err(e) => Err(e),
        Ok(found) => Ok(function_from_types(dialect, f, found.0, found.1)),
    }
}

/// The outcome of rendering each function, in order.
pub open spec fn function_outcomes(dialect: Dialect, cfg: ExportConfiguration, fs: Seq<FunctionDescriptor>) -> Seq<
    Result<Seq<char>, TsExportError>,
> {
    Seq::new(fs.len(), |i: int| rendered_function(dialect, cfg, fs[i]))
}

/// The function block for `fs`, or the first failure among its functions.
pub open spec fn rendered_functions(dialect: Dialect, cfg: ExportConfiguration, fs: Seq<FunctionDescriptor>) -> Result<
    Seq<char>,
    TsExportError,
> {
    match collected(function_outcomes(dialect, cfg, fs)) {
        Err(e) => Err(e),
        Ok(parts) => Ok(function_block_text(parts)),
    }
}

/// The descriptors that are present in `entries`, in order.
pub open spec fn present(entries: Seq<Option<NamedDataType>>) -> Seq<NamedDataType>
    decreases entries.len(),
{
    if entries.len() == 0 {
        Seq::empty()
    } else {
        match entries.last() {
            Some(ty) => present(entries.drop_last()).push(ty),
            None => present(entries.drop_last()),
        }
    }
}

/// The declaration of each of `types`, in order.
pub open spec fn declaration_outcomes(cfg: ExportConfiguration, types: Seq<NamedDataType>) -> Seq<
    Result<Seq<char>, TsExportError>,
> {
    Seq::new(types.len(), |i: int| type_declaration(cfg, types[i]))
}

/// The type block for `entries`: one declaration for each entry that holds a
/// descriptor and none for the others, or the first failure among them.
pub open spec fn rendered_types(cfg: ExportConfiguration, entries: Seq<Option<NamedDataType>>) -> Result<
    Seq<char>,
    TsExportError,
> {
    match collected(declaration_outcomes(cfg, present(entries))) {
        Err(e) => Err(e),
        Ok(parts) => Ok(type_block_text(parts)),
    }
}

/// The document for `fs` and `entries`: the functions are rendered first,
/// then, in the typed dialect only, the types.
pub open spec fn rendered_document(
    dialect: Dialect,
    cfg: ExportConfiguration,
    fs: Seq<FunctionDescriptor>,
    entries: Seq<Option<NamedDataType>>,
) -> Result<Seq<char>, TsExportError> {
    match rendered_functions(dialect, cfg, fs) {
        Err(e) => Err(e),
        Ok(functions) => if dialect.annotates_types() {
            match rendered_types(cfg, entries) {
                Err(e) => Err(e),
                Ok(types) => Ok(document_text(dialect, functions, types)),
            }
        } else {
            Ok(document_text(dialect, functions, Seq::empty()))
        },
    }
}

/// Whether the declarations of `entries` under `cfg` are fixed by `cfg` and
/// `entries` alone: the comment formatter of `cfg` behaves as a function, or
/// there is no descriptor to declare.
pub open spec fn declarations_are_fixed(cfg: ExportConfiguration, entries: Seq<Option<NamedDataType>>) -> bool {
    formats_comments_as_function(cfg) || present(entries).len() == 0
}

/// Whether the document for the input is fixed by the input alone: the
/// dialect declares no types, or their declarations are fixed.
pub open spec fn document_is_fixed(
    dialect: Dialect,
    cfg: ExportConfiguration,
    entries: Seq<Option<NamedDataType>>,
) -> bool {
    !dialect.annotates_types() || declarations_are_fixed(cfg, entries)
}

/// What holds of the outcome `r` of rendering `fs`, whatever came of the
/// types' declarations: a function that fails is the failure of the whole,
/// and a document, where there is one, is `banner` and then a document around
/// the function block of `fs`.
pub open spec fn built_on_functions(
    dialect: Dialect,
    cfg: ExportConfiguration,
    fs: Seq<FunctionDescriptor>,
    banner: Seq<char>,
    r: Result<Seq<char>, ExportFailure>,
) -> bool {
    match rendered_functions(dialect, cfg, fs) {
        Err(e) => r == Err::<Seq<char>, ExportFailure>(ExportFailure::TypeFormatting(e)),
        Ok(functions) => match r {
            Ok(text) => exists|types: Seq<char>|
                text == banner + #[trigger] document_text(dialect, functions, types),
            Err(failure) => failure is TypeFormatting,
        },
    }
}

/// A list of spellings, or a failure, with each text taken as a sequence of
/// characters.
pub open spec fn texts_of(r: Result<Vec<String>, TsExportError>) -> Result<Seq<Seq<char>>, TsExportError> {
    match r {
        Ok(v) => Ok(texts(v@)),
        Err(e) => Err(e),
    }
}

/// Camel-cases the name of each parameter.
pub fn camel_parameter_names(args: &Vec<Parameter>) -> (names: Vec<String>)
    ensures
        texts(names@) == camel_names(args@),
{
    let mut names: Vec<String> = Vec::new();
    let mut i: usize = 0;
    while i < args.len()
        invariant
            i <= args.len(),
            names.len() == i,
            forall|k: int| 0 <= k < i ==> (#[trigger] names[k])@ == lower_camel_case(args[k].name@),
        decreases args.len() - i,
    {
        names.push(camel_case(args[i].name.as_str()));
        i = i + 1;
    }
    assert(texts(names@) =~= camel_names(args@));
    names
}

/// Asks for the spelling of each parameter's type, in order, and stops at
/// the first that has none.
pub fn format_parameters(cfg: &ExportConfiguration, args: &Vec<Parameter>) -> (r: Result<Vec<String>, TsExportError>)
    ensures
        texts_of(r) == parameter_types(*cfg, args@),
        r is Ok ==> r->Ok_0.len() == args.len(),
{
    let ghost spellings = parameter_spellings(*cfg, args@);
    let mut types: Vec<String> = Vec::new();
    let mut i: usize = 0;
    proof {
        assert(spellings.take(0) =~= Seq::empty());
        assert(texts(types@) =~= Seq::empty());
    }
    while i < args.len()
        invariant
            i <= args.len(),
            types.len() == i,
            spellings == parameter_spellings(*cfg, args@),
            collected(spellings.take(i as int)) == Ok::<Seq<Seq<char>>, TsExportError>(texts(types@)),
        decreases args.len() - i,
    {
        let ghost before = texts(types@);
        match format_inline(cfg, &args[i].ty) {
            Ok(ty) => {
                types.push(ty);
                proof {
                    lemma_collected_next_success(spellings, i as int);
                    assert(texts(types@) =~= before.push(ty@));
                }
            },
            Err(e) => {
                proof {
                    lemma_collected_first_failure(spellings, i as int);
                }
                return Err(e);
            },
        }
        i = i + 1;
    }
    proof {
        assert(spellings.take(args.len() as int) == spellings);
    }
    Ok(types)
}

/// Writes each name with its type behind it: `names` and `types` hold the
/// two halves of the same parameters.
pub fn annotate(names: &Vec<String>, types: &Vec<String>) -> (out: Vec<String>)
    requires
        names.len() == types.len(),
    ensures
        texts(out@) == annotated(texts(names@), texts(types@)),
{
    let mut out: Vec<String> = Vec::new();
    let mut i: usize = 0;
    while i < names.len()
        invariant
            i <= names.len(),
            names.len() == types.len(),
            out.len() == i,
            forall|k: int| 0 <= k < i ==> (#[trigger] out[k])@ == typed_parameter_text(names[k]@, types[k]@),
        decreases names.len() - i,
    {
        out.push(typed_parameter(names[i].as_str(), types[i].as_str()));
        i = i + 1;
    }
    assert(texts(out@) =~= annotated(texts(names@), texts(types@)));
    out
}

/// Collects the lines of a function's documentation comment: the raw lines
/// and, in the untyped dialect, one line per parameter and one for the
/// result. `names` and `types` hold the two halves of the same parameters.
pub fn documentation_lines(
    dialect: Dialect,
    docs: &Vec<String>,
    names: &Vec<String>,
    types: &Vec<String>,
    ret: &str,
) -> (lines: Vec<String>)
    requires
        names.len() == types.len(),
    ensures
        texts(lines@) == doc_lines(dialect, texts(docs@), texts(names@), texts(types@), ret@),
{
    let mut lines: Vec<String> = Vec::new();
    let mut i: usize = 0;
    while i < docs.len()
        invariant
            i <= docs.len(),
            lines.len() == i,
            forall|k: int| 0 <= k < i ==> (#[trigger] lines[k])@ == docs[k]@,
        decreases docs.len() - i,
    {
        lines.push(docs[i].clone());
        i = i + 1;
    }
    assert(texts(lines@) =~= texts(docs@));
    match dialect {
        Dialect::Typed => {},
        Dialect::Untyped => {
            let mut j: usize = 0;
            while j < names.len()
                invariant
                    j <= names.len(),
                    names.len() == types.len(),
                    lines.len() == docs.len() + j,
                    forall|k: int| 0 <= k < docs.len() ==> (#[trigger] lines[k])@ == docs[k]@,
                    forall|k: int|
                        0 <= k < j ==> (#[trigger] lines[docs.len() + k])@ == param_line_text(
                            types[k]@,
                            names[k]@,
                        ),
                decreases names.len() - j,
            {
                lines.push(param_line(types[j].as_str(), names[j].as_str()));
                j = j + 1;
            }
            lines.push(returns_line(ret));
            proof {
                let wanted = (texts(docs@) + param_lines(texts(names@), texts(types@))).push(
                    returns_line_text(ret@),
                );
                assert(texts(lines@).len() == wanted.len());
                assert forall|k: int| 0 <= k < wanted.len() implies texts(lines@)[k] == wanted[k] by {
                    if docs.len() <= k < docs.len() + names.len() {
                        assert(lines[docs.len() + (k - docs.len())]@ == param_line_text(
                            types[k - docs.len()]@,
                            names[k - docs.len()]@,
                        ));
                    }
                }
                assert(texts(lines@) =~= wanted);
            }
        },
    }
    lines
}

/// Renders the documentation comment that holds `lines`, each without the
/// whitespace it begins with.
pub fn documentation_block(lines: &Vec<String>) -> (out: String)
    ensures
        out@ == doc_comment(trimmed(texts(lines@))),
{
    let out = js_doc(lines);
    assert(Seq::new(lines@.len(), |i: int| trimmed_start(lines@[i]@)) =~= trimmed(texts(lines@)));
    out
}

/// Puts one exported function together from the spellings of its types.
fn assemble_function(dialect: Dialect, f: &FunctionDescriptor, types: &Vec<String>, ret: &str) -> (out: String)
    requires
        types.len() == f.args.len(),
    ensures
        out@ == function_from_types(dialect, *f, texts(types@), ret@),
{
    let names = camel_parameter_names(&f.args);
    assert(names.len() == f.args.len()) by {
        assert(texts(names@).len() == camel_names(f.args@).len());
    }
    let camel = camel_case(f.name.as_str());
    let params = match dialect {
        Dialect::Typed => {
            let declared = annotate(&names, types);
            join(&declared, ", ")
        },
        Dialect::Untyped => join(&names, ", "),
    };
    let lines = documentation_lines(dialect, &f.docs, &names, types, ret);
    let doc = documentation_block(&lines);
    let forwarding = forwarding_expression(dialect, &names);
    function_source(
        dialect,
        doc.as_str(),
        camel.as_str(),
        params.as_str(),
        ret,
        f.name.as_str(),
        forwarding.as_str(),
    )
}

/// Renders the exported function for `f`: asks for the spellings of its
/// types, in the dialect's order, and puts the function together.
pub fn render_function(dialect: Dialect, cfg: &ExportConfiguration, f: &FunctionDescriptor) -> (r: Result<String, TsExportError>)
    ensures
        text_of(r) == rendered_function(dialect, *cfg, *f),
{
    match dialect {
        Dialect::Typed => {
            let types = match format_parameters(cfg, &f.args) {
                Ok(types) => types,
                Err(e) => { return Err(e); },
            };
            let ret = match format_inline(cfg, &f.result) {
                Ok(ret) => ret,
                Err(e) => { return Err(e); },
            };
            Ok(assemble_function(dialect, f, &types, ret.as_str()))
        },
        Dialect::Untyped => {
            let ret = match format_inline(cfg, &f.result) {
                Ok(ret) => ret,
                Err(e) => { return Err(e); },
            };
            let types = match format_parameters(cfg, &f.args) {
                Ok(types) => types,
                Err(e) => { return Err(e); },
            };
            Ok(assemble_function(dialect, f, &types, ret.as_str()))
        },
    }
}

/// Renders the function block: every function in input order, with a blank
/// line between each two. The first function that fails ends the work.
pub fn render_function_block(dialect: Dialect, cfg: &ExportConfiguration, fs: &Vec<FunctionDescriptor>) -> (r: Result<String, TsExportError>)
    ensures
        text_of(r) == rendered_functions(dialect, *cfg, fs@),
{
    let ghost outcomes = function_outcomes(dialect, *cfg, fs@);
    let mut parts: Vec<String> = Vec::new();
    let mut i: usize = 0;
    proof {
        assert(outcomes.take(0) =~= Seq::empty());
        assert(texts(parts@) =~= Seq::empty());
    }
    while i < fs.len()
        invariant
            i <= fs.len(),
            outcomes == function_outcomes(dialect, *cfg, fs@),
            collected(outcomes.take(i as int)) == Ok::<Seq<Seq<char>>, TsExportError>(texts(parts@)),
        decreases fs.len() - i,
    {
        let ghost before = texts(parts@);
        match render_function(dialect, cfg, &fs[i]) {
            Ok(part) => {
                parts.push(part);
                proof {
                    lemma_collected_next_success(outcomes, i as int);
                    assert(texts(parts@) =~= before.push(part@));
                }
            },
            Err(e) => {
                proof {
                    lemma_collected_first_failure(outcomes, i as int);
                }
                return Err(e);
            },
        }
        i = i + 1;
    }
    proof {
        assert(outcomes.take(fs.len() as int) == outcomes);
    }
    Ok(join(&parts, "\n\n"))
}

/// Picks the descriptors that are present in `entries`, in order.
pub fn present_descriptors(entries: &Vec<Option<NamedDataType>>) -> (found: Vec<&NamedDataType>)
    ensures
        found@.len() == present(entries@).len(),
        forall|k: int| 0 <= k < found@.len() ==> *(#[trigger] found@[k]) == present(entries@)[k],
{
    let mut found: Vec<&NamedDataType> = Vec::new();
    let mut i: usize = 0;
    proof {
        assert(entries@.take(0) =~= Seq::empty());
    }
    while i < entries.len()
        invariant
            i <= entries.len(),
            found@.len() == present(entries@.take(i as int)).len(),
            forall|k: int|
                0 <= k < found@.len() ==> *(#[trigger] found@[k]) == present(entries@.take(i as int))[k],
        decreases entries.len() - i,
    {
        proof {
            assert(entries@.take(i + 1).drop_last() == entries@.take(i as int));
        }
        match &entries[i] {
            Some(ty) => {
                found.push(ty);
            },
            None => {},
        }
        i = i + 1;
    }
    proof {
        assert(entries@.take(entries.len() as int) == entries@);
    }
    found
}

/// Renders the type block: one declaration for each entry of the registry
/// that holds a descriptor, in the registry's order, one per line. The first
/// declaration that fails ends the work. Which text a declaration has is
/// fixed where the comment formatter of `cfg` behaves as a function; that
/// there is one per descriptor holds in any case.
pub fn render_type_block(cfg: &ExportConfiguration, registry: &TypeRegistry) -> (r: Result<String, TsExportError>)
    ensures
        declarations_are_fixed(*cfg, registry.entries@) ==> text_of(r) == rendered_types(
            *cfg,
            registry.entries@,
        ),
        r is Ok ==> exists|declarations: Seq<Seq<char>>|
            declarations.len() == present(registry.entries@).len() && r->Ok_0@
                == #[trigger] type_block_text(declarations),
{
    let found = present_descriptors(&registry.entries);
    let ghost outcomes = declaration_outcomes(*cfg, present(registry.entries@));
    let ghost fixed = declarations_are_fixed(*cfg, registry.entries@);
    let mut parts: Vec<String> = Vec::new();
    let mut i: usize = 0;
    proof {
        assert(outcomes.take(0) =~= Seq::empty());
        assert(texts(parts@) =~= Seq::empty());
    }
    while i < found.len()
        invariant
            i <= found.len(),
            parts.len() == i,
            found@.len() == present(registry.entries@).len(),
            forall|k: int|
                0 <= k < found@.len() ==> *(#[trigger] found@[k]) == present(registry.entries@)[k],
            outcomes == declaration_outcomes(*cfg, present(registry.entries@)),
            fixed == declarations_are_fixed(*cfg, registry.entries@),
            fixed ==> collected(outcomes.take(i as int)) == Ok::<Seq<Seq<char>>, TsExportError>(
                texts(parts@),
            ),
        decreases found.len() - i,
    {
        let ghost before = texts(parts@);
        match format_declaration(cfg, found[i]) {
            Ok(part) => {
                parts.push(part);
                proof {
                    if fixed {
                        lemma_collected_next_success(outcomes, i as int);
                    }
                    assert(texts(parts@) =~= before.push(part@));
                }
            },
            Err(e) => {
                proof {
                    if fixed {
                        lemma_collected_first_failure(outcomes, i as int);
                    }
                }
                return Err(e);
            },
        }
        i = i + 1;
    }
    let out = join(&parts, "\n");
    proof {
        assert(outcomes.take(found.len() as int) == outcomes);
        assert(texts(parts@).len() == present(registry.entries@).len());
        assert(out@ == type_block_text(texts(parts@)));
    }
    Ok(out)
}

/// Renders a whole document: the function block first, then, in the typed
/// dialect only, the type block. Nothing is put together unless every part
/// succeeds. Where the types' declarations are not fixed by the input, the
/// document still stands on the function block of the input.
pub fn render_document(
    dialect: Dialect,
    cfg: &ExportConfiguration,
    fs: &Vec<FunctionDescriptor>,
    registry: &TypeRegistry,
) -> (r: Result<String, TsExportError>)
    ensures
        document_is_fixed(dialect, *cfg, registry.entries@) ==> text_of(r) == rendered_document(
            dialect,
            *cfg,
            fs@,
            registry.entries@,
        ),
        built_on_functions(dialect, *cfg, fs@, Seq::empty(), formatting_outcome(text_of(r))),
{
    let functions = match render_function_block(dialect, cfg, fs) {
        Ok(functions) => functions,
        Err(e) => { return Err(e); },
    };
    let out = match dialect {
        Dialect::Typed => {
            let types = match render_type_block(cfg, registry) {
                Ok(types) => types,
                Err(e) => { return Err(e); },
            };
            let out = document(dialect, functions.as_str(), types.as_str());
            assert(out@ =~= Seq::<char>::empty() + document_text(dialect, functions@, types@));
            out
        },
        Dialect::Untyped => {
            let out = document(dialect, functions.as_str(), "");
            assert(out@ =~= Seq::<char>::empty() + document_text(dialect, functions@, ""@));
            out
        },
    };
    Ok(out)
}

/// What `rendered` becomes as the outcome of an export: a failure is a
/// failure to format a type, a text stays as it is.
pub open spec fn formatting_outcome(rendered: Result<Seq<char>, TsExportError>) -> Result<Seq<char>, ExportFailure> {
    match rendered {
        Ok(text) => Ok(text),
        Err(e) => Err(ExportFailure::TypeFormatting(e)),
    }
}

/// The text of an exported file: the banner, and right behind it the
/// document; or the failure that left no document.
pub open spec fn exported(
    dialect: Dialect,
    cfg: ExportConfiguration,
    fs: Seq<FunctionDescriptor>,
    entries: Seq<Option<NamedDataType>>,
    banner: Seq<char>,
) -> Result<Seq<char>, ExportFailure> {
    match rendered_document(dialect, cfg, fs, entries) {
        Ok(text) => Ok(banner + text),
        Err(e) => Err(ExportFailure::TypeFormatting(e)),
    }
}

/// Turns a rendering result into the outcome of an export.
pub fn into_outcome(rendered: Result<String, TsExportError>) -> (r: Result<String, ExportFailure>)
    ensures
        crate::model::outcome(r) == formatting_outcome(text_of(rendered)),
{
    match rendered {
        Ok(text) => Ok(text),
        Err(e) => Err(ExportFailure::TypeFormatting(e)),
    }
}

/// Renders the text of a file: `banner`, then the document.
pub fn export_document(
    dialect: Dialect,
    cfg: &ExportConfiguration,
    fs: &Vec<FunctionDescriptor>,
    registry: &TypeRegistry,
    banner: &str,
) -> (r: Result<String, ExportFailure>)
    ensures
        document_is_fixed(dialect, *cfg, registry.entries@) ==> crate::model::outcome(r) == exported(
            dialect,
            *cfg,
            fs@,
            registry.entries@,
            banner@,
        ),
        built_on_functions(dialect, *cfg, fs@, banner@, crate::model::outcome(r)),
{
    match render_document(dialect, cfg, fs, registry) {
        Ok(text) => {
            let mut out = String::from_str(banner);
            out.append(text.as_str());
            proof {
                let functions = rendered_functions(dialect, *cfg, fs@)->Ok_0;
                let types = choose|types: Seq<char>|
                    text@ == Seq::<char>::empty() + #[trigger] document_text(dialect, functions, types);
                assert(out@ =~= banner@ + document_text(dialect, functions, types));
            }
            Ok(out)
        },
        Err(e) => Err(ExportFailure::TypeFormatting(e)),
    }
}

} // verus!
