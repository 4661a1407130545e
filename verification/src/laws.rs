//! What holds of every export, stated over the same functions as the
//! contracts of the renderers and proved from their definitions.

use vstd::prelude::*;
use specta::NamedDataType;
use specta::ts::ExportConfiguration;
use crate::formatting::{doc_comment, inline_type, lower_camel_case, trimmed, type_declaration};
use crate::layout::{bridge_text, document_text, forwarding_text, globals_text, DO_NOT_EDIT};
use crate::model::{outcome, Dialect, ExportFailure, FunctionDescriptor};
use crate::pipeline::{
    built_on_functions, camel_names, declaration_outcomes, declared_parameters, doc_lines,
    document_is_fixed, exported,
    formatting_outcome, function_from_types, function_outcomes, parameter_spellings, present,
    rendered_document, rendered_function, rendered_functions, rendered_types, signature_types,
};
use crate::text::{
    collected, joined, lemma_collected_all, lemma_joined_len, lemma_occurs_in_joined,
    lemma_occurs_within, occurs_at, occurs_in, texts,
};

verus! {

/// The call through the bridge as it stands in a function's body, up to the
/// command's name: `invoke("name"`, or `invoke<type>("name"` where the
/// dialect annotates types.
pub open spec fn call_through(dialect: Dialect, ret: Seq<char>, name: Seq<char>) -> Seq<char> {
    bridge_text(dialect, ret) + "(\""@ + name + "\""@
}

/// Every exported function calls the bridge with the name under which the
/// backend registered the command, character for character, whatever the
/// camel-cased form of that name is.
pub proof fn lemma_function_calls_registered_name(
    dialect: Dialect,
    f: FunctionDescriptor,
    types: Seq<Seq<char>>,
    ret: Seq<char>,
)
    ensures
        occurs_in(call_through(dialect, ret, f.name@), function_from_types(dialect, f, types, ret)),
{
    let names = camel_names(f.args@);
    let needle = call_through(dialect, ret, f.name@);
    let before = doc_comment(trimmed(doc_lines(dialect, texts(f.docs@), names, types, ret))) + "export function "@
        + lower_camel_case(f.name@) + "("@ + declared_parameters(dialect, names, types)
        + ") {\n    return "@;
    let after = forwarding_text(dialect, names) + ")\n}"@;
    assert(needle.subrange(0, needle.len() as int) =~= needle);
    assert(occurs_at(needle, needle, 0));
    lemma_occurs_within(needle, before, needle, after);
    assert(before + needle + after =~= function_from_types(dialect, f, types, ret));
}

/// In every function block, each function of the input calls the bridge
/// with its registered name: the call, with the spelling of the function's
/// result type where the dialect annotates types, stands in the block.
pub proof fn lemma_function_block_calls_registered_names(
    dialect: Dialect,
    cfg: ExportConfiguration,
    fs: Seq<FunctionDescriptor>,
    i: int,
)
    requires
        0 <= i < fs.len(),
        rendered_functions(dialect, cfg, fs) is Ok,
    ensures
        inline_type(cfg, fs[i].result) is Ok,
        occurs_in(
            call_through(dialect, inline_type(cfg, fs[i].result)->Ok_0, fs[i].name@),
            rendered_functions(dialect, cfg, fs)->Ok_0,
        ),
{
    let outcomes = function_outcomes(dialect, cfg, fs);
    lemma_collected_all(outcomes);
    let parts = collected(outcomes)->Ok_0;
    assert(outcomes[i] is Ok);
    assert(outcomes[i]->Ok_0 == parts[i]);
    let found = signature_types(dialect, cfg, fs[i])->Ok_0;
    let ret = inline_type(cfg, fs[i].result)->Ok_0;
    lemma_function_calls_registered_name(dialect, fs[i], found.0, ret);
    lemma_occurs_in_joined(call_through(dialect, ret, fs[i].name@), parts, "\n\n"@, i);
}

/// What stands in the function block stands in every document around it,
/// behind any banner.
pub proof fn lemma_document_holds_function_block(
    dialect: Dialect,
    needle: Seq<char>,
    banner: Seq<char>,
    functions: Seq<char>,
    types: Seq<char>,
)
    requires
        occurs_in(needle, functions),
    ensures
        occurs_in(needle, banner + document_text(dialect, functions, types)),
{
    let before = banner + DO_NOT_EDIT@ + "\n\n"@ + globals_text(dialect) + "\n\n"@;
    let after = if dialect.annotates_types() {
        "\n\n"@ + types + "\n"@
    } else {
        "\n"@
    };
    lemma_occurs_within(needle, before, functions, after);
    assert(before + functions + after =~= banner + document_text(dialect, functions, types));
}

/// In every exported file, each function of the input calls the bridge with
/// its registered name, whatever the file holds besides the function block.
pub proof fn lemma_export_calls_registered_names(
    dialect: Dialect,
    cfg: ExportConfiguration,
    fs: Seq<FunctionDescriptor>,
    banner: Seq<char>,
    r: Result<String, ExportFailure>,
    i: int,
)
    requires
        0 <= i < fs.len(),
        built_on_functions(dialect, cfg, fs, banner, outcome(r)),
        r is Ok,
    ensures
        inline_type(cfg, fs[i].result) is Ok,
        occurs_in(call_through(dialect, inline_type(cfg, fs[i].result)->Ok_0, fs[i].name@), r->Ok_0@),
{
    lemma_function_block_calls_registered_names(dialect, cfg, fs, i);
    let functions = rendered_functions(dialect, cfg, fs)->Ok_0;
    let types = choose|types: Seq<char>| r->Ok_0@ == banner + #[trigger] document_text(dialect, functions, types);
    let needle = call_through(dialect, inline_type(cfg, fs[i].result)->Ok_0, fs[i].name@);
    lemma_document_holds_function_block(dialect, needle, banner, functions, types);
}

/// A function without parameters forwards nothing: its call reads
/// `invoke("name")`, with no record behind the name, and its parameter list
/// is empty.
pub proof fn lemma_no_parameters_no_forwarding(
    dialect: Dialect,
    f: FunctionDescriptor,
    types: Seq<Seq<char>>,
    ret: Seq<char>,
)
    requires
        f.args@.len() == 0,
    ensures
        forwarding_text(dialect, camel_names(f.args@)) == Seq::<char>::empty(),
        function_from_types(dialect, f, types, ret) == doc_comment(
            trimmed(doc_lines(dialect, texts(f.docs@), Seq::empty(), types, ret)),
        ) + "export function "@ + lower_camel_case(f.name@) + "() {\n    return "@ + call_through(
            dialect,
            ret,
            f.name@,
        ) + ")\n}"@,
{
    reveal_strlit("(");
    reveal_strlit(") {\n    return ");
    reveal_strlit("() {\n    return ");
    let names = camel_names(f.args@);
    assert(names =~= Seq::empty());
    assert(declared_parameters(dialect, names, types) =~= Seq::empty());
    assert("("@ + ") {\n    return "@ =~= "() {\n    return "@);
    let doc = doc_comment(trimmed(doc_lines(dialect, texts(f.docs@), names, types, ret)));
    let start = doc + "export function "@ + lower_camel_case(f.name@);
    assert(start + "("@ + Seq::<char>::empty() + ") {\n    return "@ =~= start + ("("@
        + ") {\n    return "@));
    assert(function_from_types(dialect, f, types, ret) =~= start + "() {\n    return "@
        + call_through(dialect, ret, f.name@) + ")\n}"@);
}

/// The camel-cased names are used wherever the generated function itself
/// speaks: as the name it is exported under, in its declared parameters and
/// as the keys of the record it forwards. The name of the command, inside the
/// call, stays as the backend registered it.
pub proof fn lemma_names_are_camel_cased(
    dialect: Dialect,
    f: FunctionDescriptor,
    types: Seq<Seq<char>>,
    ret: Seq<char>,
)
    requires
        f.args@.len() > 0,
    ensures
        function_from_types(dialect, f, types, ret) == doc_comment(
            trimmed(doc_lines(dialect, texts(f.docs@), camel_names(f.args@), types, ret)),
        ) + "export function "@ + lower_camel_case(f.name@) + "("@ + declared_parameters(
            dialect,
            camel_names(f.args@),
            types,
        ) + ") {\n    return "@ + call_through(dialect, ret, f.name@) + ", { "@ + joined(
            camel_names(f.args@),
            dialect.forward_separator(),
        ) + " }"@ + ")\n}"@,
{
    let names = camel_names(f.args@);
    let start = doc_comment(trimmed(doc_lines(dialect, texts(f.docs@), names, types, ret))) + "export function "@
        + lower_camel_case(f.name@) + "("@ + declared_parameters(dialect, names, types)
        + ") {\n    return "@;
    assert(function_from_types(dialect, f, types, ret) =~= start + call_through(dialect, ret, f.name@)
        + ", { "@ + joined(names, dialect.forward_separator()) + " }"@ + ")\n}"@);
}

/// In the typed dialect a function without documentation has no comment at
/// all: its text starts with `export function`.
pub proof fn lemma_typed_without_docs_has_no_comment(f: FunctionDescriptor, types: Seq<Seq<char>>, ret: Seq<char>)
    requires
        f.docs@.len() == 0,
    ensures
        function_from_types(Dialect::Typed, f, types, ret) == "export function "@ + lower_camel_case(
            f.name@,
        ) + "("@ + declared_parameters(Dialect::Typed, camel_names(f.args@), types)
            + ") {\n    return "@ + call_through(Dialect::Typed, ret, f.name@) + forwarding_text(
            Dialect::Typed,
            camel_names(f.args@),
        ) + ")\n}"@,
{
    let names = camel_names(f.args@);
    assert(doc_comment(trimmed(doc_lines(Dialect::Typed, texts(f.docs@), names, types, ret))) =~= Seq::empty());
    assert(Seq::<char>::empty() + "export function "@ =~= "export function "@);
    let start = "export function "@ + lower_camel_case(f.name@) + "("@ + declared_parameters(
        Dialect::Typed,
        names,
        types,
    ) + ") {\n    return "@;
    assert(function_from_types(Dialect::Typed, f, types, ret) =~= start + call_through(
        Dialect::Typed,
        ret,
        f.name@,
    ) + forwarding_text(Dialect::Typed, names) + ")\n}"@);
}

/// In the untyped dialect every function has a comment: its documentation
/// always holds the line for the result.
pub proof fn lemma_untyped_always_documents(
    docs: Seq<Seq<char>>,
    names: Seq<Seq<char>>,
    types: Seq<Seq<char>>,
    ret: Seq<char>,
)
    ensures
        doc_lines(Dialect::Untyped, docs, names, types, ret).len() == docs.len() + names.len() + 1,
        doc_lines(Dialect::Untyped, docs, names, types, ret).last() == crate::layout::returns_line_text(ret),
        forall|k: int| 0 <= k < docs.len() ==> doc_lines(Dialect::Untyped, docs, names, types, ret)[k] == docs[k],
        forall|k: int|
            0 <= k < names.len() ==> doc_lines(Dialect::Untyped, docs, names, types, ret)[docs.len() + k]
                == crate::layout::param_line_text(types[k], names[k]),
{
}

/// A function with parameters forwards them: the record behind the
/// command's name is never empty.
pub proof fn lemma_parameters_are_forwarded(dialect: Dialect, names: Seq<Seq<char>>)
    requires
        names.len() > 0,
    ensures
        forwarding_text(dialect, names) == ", { "@ + joined(names, dialect.forward_separator()) + " }"@,
        forwarding_text(dialect, names).len() >= 6,
{
    reveal_strlit(", { ");
    reveal_strlit(" }");
}

/// What the renderers promise of a document `r` for the input: where the
/// input fixes the document, `r` is that document or that failure; and
/// whatever the input, `r` stands on the function block.
pub open spec fn is_rendering(
    dialect: Dialect,
    cfg: ExportConfiguration,
    fs: Seq<FunctionDescriptor>,
    entries: Seq<Option<NamedDataType>>,
    r: Result<Seq<char>, ExportFailure>,
) -> bool {
    &&& document_is_fixed(dialect, cfg, entries) ==> r == formatting_outcome(
        rendered_document(dialect, cfg, fs, entries),
    )
    &&& built_on_functions(dialect, cfg, fs, Seq::empty(), r)
}

/// Rendering is repeatable: two renderings of the same descriptors, registry
/// and configuration have the same outcome, which is the same failure or the
/// same characters. This holds of every untyped rendering, and of a typed one
/// where the comment formatter of the configuration behaves as a function or
/// the registry holds no descriptor.
pub proof fn lemma_rendering_is_repeatable(
    dialect: Dialect,
    cfg: ExportConfiguration,
    fs: Seq<FunctionDescriptor>,
    entries: Seq<Option<NamedDataType>>,
    first: Result<String, ExportFailure>,
    second: Result<String, ExportFailure>,
)
    requires
        document_is_fixed(dialect, cfg, entries),
        is_rendering(dialect, cfg, fs, entries, outcome(first)),
        is_rendering(dialect, cfg, fs, entries, outcome(second)),
    ensures
        first is Ok <==> second is Ok,
        first is Ok ==> first->Ok_0@ == second->Ok_0@,
        first is Err ==> first->Err_0 == second->Err_0,
{
}

/// Whatever the comment formatter does, two renderings of the same input
/// fail alike where a function fails, and agree up to the type block where
/// both give a document.
pub proof fn lemma_function_block_is_repeatable(
    dialect: Dialect,
    cfg: ExportConfiguration,
    fs: Seq<FunctionDescriptor>,
    entries: Seq<Option<NamedDataType>>,
    first: Result<String, ExportFailure>,
    second: Result<String, ExportFailure>,
)
    requires
        is_rendering(dialect, cfg, fs, entries, outcome(first)),
        is_rendering(dialect, cfg, fs, entries, outcome(second)),
    ensures
        rendered_functions(dialect, cfg, fs) is Err ==> first is Err && first->Err_0 == second->Err_0,
        first is Ok && second is Ok ==> exists|functions: Seq<char>, a: Seq<char>, b: Seq<char>|
            first->Ok_0@ == #[trigger] document_text(dialect, functions, a) && second->Ok_0@
                == #[trigger] document_text(dialect, functions, b),
{
    if first is Ok && second is Ok {
        let functions = rendered_functions(dialect, cfg, fs)->Ok_0;
        let none = Seq::<char>::empty();
        let a = choose|a: Seq<char>| first->Ok_0@ == none + #[trigger] document_text(dialect, functions, a);
        let b = choose|b: Seq<char>| second->Ok_0@ == none + #[trigger] document_text(dialect, functions, b);
        assert(none + document_text(dialect, functions, a) =~= document_text(dialect, functions, a));
        assert(none + document_text(dialect, functions, b) =~= document_text(dialect, functions, b));
    }
}

/// A function that cannot be rendered leaves every rendering without a
/// document, whatever the comment formatter does.
pub proof fn lemma_function_failure_aborts_every_rendering(
    dialect: Dialect,
    cfg: ExportConfiguration,
    fs: Seq<FunctionDescriptor>,
    entries: Seq<Option<NamedDataType>>,
    r: Result<String, ExportFailure>,
    i: int,
)
    requires
        is_rendering(dialect, cfg, fs, entries, outcome(r)),
        0 <= i < fs.len(),
        rendered_function(dialect, cfg, fs[i]) is Err,
    ensures
        r is Err,
{
    lemma_function_failure_aborts(dialect, cfg, fs, entries, Seq::empty(), i);
}

/// The two dialects forward two or more arguments differently: the typed
/// one writes a comma and a space between the names, the untyped one a comma
/// alone, so the typed record is longer by one character for each gap.
pub proof fn lemma_dialects_forward_differently(names: Seq<Seq<char>>)
    requires
        names.len() >= 2,
    ensures
        forwarding_text(Dialect::Typed, names) == ", { "@ + joined(names, ", "@) + " }"@,
        forwarding_text(Dialect::Untyped, names) == ", { "@ + joined(names, ","@) + " }"@,
        forwarding_text(Dialect::Typed, names).len() == forwarding_text(Dialect::Untyped, names).len()
            + names.len() - 1,
        forwarding_text(Dialect::Typed, names) != forwarding_text(Dialect::Untyped, names),
{
    reveal_strlit(", ");
    reveal_strlit(",");
    lemma_joined_len(names, ","@, ", "@);
    assert((names.len() - 1) * (", "@.len() - ","@.len()) == names.len() - 1) by (nonlinear_arith)
        requires
            ", "@.len() - ","@.len() == 1,
    ;
}

/// An entry without a descriptor leaves no trace in the descriptors that
/// are picked for declaration.
pub proof fn lemma_present_skips_absent(entries: Seq<Option<NamedDataType>>, i: int)
    requires
        0 <= i < entries.len(),
        entries[i] is None,
    ensures
        present(entries.remove(i)) == present(entries),
    decreases entries.len(),
{
    if i == entries.len() - 1 {
        assert(entries.remove(i) =~= entries.drop_last());
    } else {
        lemma_present_skips_absent(entries.drop_last(), i);
        assert(entries.remove(i).drop_last() =~= entries.drop_last().remove(i));
        assert(entries.remove(i).last() == entries.last());
    }
}

/// An entry without a descriptor produces no declaration: the type block is
/// the same with the entry as without it.
pub proof fn lemma_absent_entry_declares_nothing(
    cfg: ExportConfiguration,
    entries: Seq<Option<NamedDataType>>,
    i: int,
)
    requires
        0 <= i < entries.len(),
        entries[i] is None,
    ensures
        rendered_types(cfg, entries.remove(i)) == rendered_types(cfg, entries),
{
    lemma_present_skips_absent(entries, i);
}

/// An entry with a descriptor is picked for declaration, behind all that
/// were picked before it.
pub proof fn lemma_present_entry_is_declared(entries: Seq<Option<NamedDataType>>, ty: NamedDataType)
    ensures
        present(entries.push(Some(ty))) == present(entries).push(ty),
        present(entries.push(None)) == present(entries),
{
    assert(entries.push(Some(ty)).drop_last() =~= entries);
    assert(entries.push(None).drop_last() =~= entries);
}

/// A type block that was rendered holds exactly one declaration for each
/// entry with a descriptor, in the registry's order, with a single line end
/// between each two.
pub proof fn lemma_one_declaration_per_present_entry(cfg: ExportConfiguration, entries: Seq<Option<NamedDataType>>)
    requires
        rendered_types(cfg, entries) is Ok,
    ensures
        ({
            let declarations = collected(declaration_outcomes(cfg, present(entries)))->Ok_0;
            &&& declarations.len() == present(entries).len()
            &&& forall|k: int|
                0 <= k < declarations.len() ==> type_declaration(cfg, #[trigger] present(entries)[k]) == Ok::<
                    Seq<char>,
                    specta::ts::TsExportError,
                >(declarations[k])
            &&& rendered_types(cfg, entries)->Ok_0 == joined(declarations, "\n"@)
        }),
{
    let outcomes = declaration_outcomes(cfg, present(entries));
    lemma_collected_all(outcomes);
    let declarations = collected(outcomes)->Ok_0;
    assert forall|k: int| 0 <= k < declarations.len() implies type_declaration(
        cfg,
        #[trigger] present(entries)[k],
    ) == Ok::<Seq<char>, specta::ts::TsExportError>(declarations[k]) by {
        assert(outcomes[k] is Ok);
        assert(outcomes[k]->Ok_0 == declarations[k]);
    }
}

/// A type of a function that has no spelling, be it a parameter's or the
/// result's, leaves the function without a rendering.
pub proof fn lemma_type_failure_fails_function(dialect: Dialect, cfg: ExportConfiguration, f: FunctionDescriptor)
    requires
        inline_type(cfg, f.result) is Err || exists|j: int|
            0 <= j < f.args@.len() && inline_type(cfg, #[trigger] f.args@[j].ty) is Err,
    ensures
        rendered_function(dialect, cfg, f) is Err,
{
    let spellings = parameter_spellings(cfg, f.args@);
    lemma_collected_all(spellings);
    if exists|j: int| 0 <= j < f.args@.len() && inline_type(cfg, #[trigger] f.args@[j].ty) is Err {
        let j = choose|j: int| 0 <= j < f.args@.len() && inline_type(cfg, #[trigger] f.args@[j].ty) is Err;
        assert(spellings[j] is Err);
    }
}

/// One function that cannot be rendered aborts the whole export: there is no
/// document, and so no text of the functions before it.
pub proof fn lemma_function_failure_aborts(
    dialect: Dialect,
    cfg: ExportConfiguration,
    fs: Seq<FunctionDescriptor>,
    entries: Seq<Option<NamedDataType>>,
    banner: Seq<char>,
    i: int,
)
    requires
        0 <= i < fs.len(),
        rendered_function(dialect, cfg, fs[i]) is Err,
    ensures
        rendered_functions(dialect, cfg, fs) is Err,
        rendered_document(dialect, cfg, fs, entries) is Err,
        exported(dialect, cfg, fs, entries, banner) is Err,
{
    let outcomes = function_outcomes(dialect, cfg, fs);
    lemma_collected_all(outcomes);
    assert(outcomes[i] is Err);
}

/// One type that cannot be declared aborts the whole typed export in the
/// same way.
pub proof fn lemma_declaration_failure_aborts(
    cfg: ExportConfiguration,
    fs: Seq<FunctionDescriptor>,
    entries: Seq<Option<NamedDataType>>,
    banner: Seq<char>,
    k: int,
)
    requires
        0 <= k < present(entries).len(),
        type_declaration(cfg, present(entries)[k]) is Err,
    ensures
        rendered_types(cfg, entries) is Err,
        rendered_document(Dialect::Typed, cfg, fs, entries) is Err,
        exported(Dialect::Typed, cfg, fs, entries, banner) is Err,
{
    let outcomes = declaration_outcomes(cfg, present(entries));
    lemma_collected_all(outcomes);
    assert(outcomes[k] is Err);
}

/// An export succeeds exactly when every type it needs has a spelling: the
/// types of all parameters and results, and in the typed dialect the
/// declarations of all entries with a descriptor.
pub proof fn lemma_export_succeeds_when_all_types_format(
    dialect: Dialect,
    cfg: ExportConfiguration,
    fs: Seq<FunctionDescriptor>,
    entries: Seq<Option<NamedDataType>>,
    banner: Seq<char>,
)
    ensures
        exported(dialect, cfg, fs, entries, banner) is Ok <==> {
            &&& forall|i: int|
                0 <= i < fs.len() ==> inline_type(cfg, (#[trigger] fs[i]).result) is Ok
            &&& forall|i: int, j: int|
                0 <= i < fs.len() && 0 <= j < fs[i].args@.len() ==> inline_type(
                    cfg,
                    #[trigger] fs[i].args@[j].ty,
                ) is Ok
            &&& dialect.annotates_types() ==> forall|k: int|
                0 <= k < present(entries).len() ==> type_declaration(cfg, #[trigger] present(entries)[k]) is Ok
        },
{
    let outcomes = function_outcomes(dialect, cfg, fs);
    lemma_collected_all(outcomes);
    let declarations = declaration_outcomes(cfg, present(entries));
    lemma_collected_all(declarations);
    let all_results = forall|i: int| 0 <= i < fs.len() ==> inline_type(cfg, (#[trigger] fs[i]).result) is Ok;
    let all_params = forall|i: int, j: int|
        0 <= i < fs.len() && 0 <= j < fs[i].args@.len() ==> inline_type(cfg, #[trigger] fs[i].args@[j].ty) is Ok;
    let all_declared = forall|k: int|
        0 <= k < present(entries).len() ==> type_declaration(cfg, #[trigger] present(entries)[k]) is Ok;
    assert forall|i: int| 0 <= i < fs.len() implies ((#[trigger] outcomes[i]) is Ok <==> (inline_type(
        cfg,
        fs[i].result,
    ) is Ok && forall|j: int|
        0 <= j < fs[i].args@.len() ==> inline_type(cfg, #[trigger] fs[i].args@[j].ty) is Ok)) by {
        let spellings = parameter_spellings(cfg, fs[i].args@);
        lemma_collected_all(spellings);
        if forall|j: int| 0 <= j < fs[i].args@.len() ==> inline_type(cfg, #[trigger] fs[i].args@[j].ty) is Ok {
            assert forall|j: int| 0 <= j < spellings.len() implies (#[trigger] spellings[j]) is Ok by {
                assert(inline_type(cfg, fs[i].args@[j].ty) is Ok);
            }
        }
        if collected(spellings) is Ok {
            assert forall|j: int| 0 <= j < fs[i].args@.len() implies inline_type(
                cfg,
                #[trigger] fs[i].args@[j].ty,
            ) is Ok by {
                assert(spellings[j] is Ok);
            }
        }
    }
    if exported(dialect, cfg, fs, entries, banner) is Ok {
        assert(all_results) by {
            assert forall|i: int| 0 <= i < fs.len() implies inline_type(cfg, (#[trigger] fs[i]).result) is Ok by {
                assert(outcomes[i] is Ok);
            }
        }
        assert(all_params) by {
            assert forall|i: int, j: int| 0 <= i < fs.len() && 0 <= j < fs[i].args@.len() implies inline_type(
                cfg,
                #[trigger] fs[i].args@[j].ty,
            ) is Ok by {
                assert(outcomes[i] is Ok);
            }
        }
        if dialect.annotates_types() {
            assert(all_declared) by {
                assert forall|k: int| 0 <= k < present(entries).len() implies type_declaration(
                    cfg,
                    #[trigger] present(entries)[k],
                ) is Ok by {
                    assert(declarations[k] is Ok);
                }
            }
        }
    }
    if all_results && all_params && (dialect.annotates_types() ==> all_declared) {
        assert forall|i: int| 0 <= i < outcomes.len() implies (#[trigger] outcomes[i]) is Ok by {
            assert(inline_type(cfg, fs[i].result) is Ok);
            assert forall|j: int| 0 <= j < fs[i].args@.len() implies inline_type(
                cfg,
                #[trigger] fs[i].args@[j].ty,
            ) is Ok by {}
        }
        if dialect.annotates_types() {
            assert forall|k: int| 0 <= k < declarations.len() implies (#[trigger] declarations[k]) is Ok by {
                assert(type_declaration(cfg, present(entries)[k]) is Ok);
            }
        }
    }
}

} // verus!
