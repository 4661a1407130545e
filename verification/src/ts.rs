//! The typed dialect: TypeScript source, in which parameters and results
//! carry their types and every type the functions refer to is declared.

use vstd::prelude::*;
use specta::ExportError;
use specta::ts::ExportConfiguration;
use crate::formatting::{default_configuration, is_default_configuration};
use crate::layout::{globals_block, globals_text, ESLINT_DISABLE};
use crate::model::{outcome, Dialect, ExportFailure, FunctionDescriptor, TypeRegistry};
use crate::pipeline::{
    built_on_functions, declarations_are_fixed, export_document, exported, formatting_outcome,
    into_outcome, render_document, render_function_block, rendered_document, rendered_functions,
};

verus! {

/// Type definitions and constants that the generated functions rely on.
pub fn globals() -> (out: String)
    ensures
        out@ == globals_text(Dialect::Typed),
{
    globals_block(Dialect::Typed)
}

/// Renders a collection of function descriptors into TypeScript: one
/// exported function each, in input order, or the first formatting failure.
pub fn render_functions(function_types: Vec<FunctionDescriptor>, cfg: &ExportConfiguration) -> (r: Result<String, ExportFailure>)
    ensures
        outcome(r) == formatting_outcome(rendered_functions(Dialect::Typed, *cfg, function_types@)),
{
    into_outcome(render_function_block(Dialect::Typed, cfg, &function_types))
}

/// Renders the notice, the globals, the functions and all dependent types
/// into one TypeScript document. The document is fixed by the input where
/// the comment formatter of `cfg` behaves as a function, or no type is to be
/// declared; in any case it stands on the function block of the input.
pub fn render(function_types: Vec<FunctionDescriptor>, type_map: TypeRegistry, cfg: &ExportConfiguration) -> (r: Result<String, ExportFailure>)
    ensures
        declarations_are_fixed(*cfg, type_map.entries@) ==> outcome(r) == formatting_outcome(
            rendered_document(Dialect::Typed, *cfg, function_types@, type_map.entries@),
        ),
        built_on_functions(Dialect::Typed, *cfg, function_types@, Seq::empty(), outcome(r)),
{
    into_outcome(render_document(Dialect::Typed, cfg, &function_types, &type_map))
}

/// The text of a TypeScript file for `result` under `cfg`, behind the
/// default banner. What is fixed of it is what is fixed of the document.
pub fn export_with_cfg(result: (Vec<FunctionDescriptor>, TypeRegistry), cfg: ExportConfiguration) -> (r: Result<String, ExportFailure>)
    ensures
        declarations_are_fixed(cfg, result.1.entries@) ==> outcome(r) == exported(
            Dialect::Typed,
            cfg,
            result.0@,
            result.1.entries@,
            ESLINT_DISABLE@,
        ),
        built_on_functions(Dialect::Typed, cfg, result.0@, ESLINT_DISABLE@, outcome(r)),
{
    export_with_cfg_with_header(result, cfg, ESLINT_DISABLE)
}

/// The text of a TypeScript file for `result` under `cfg`, behind `header`.
/// What is fixed of it is what is fixed of the document.
pub fn export_with_cfg_with_header(
    result: (Vec<FunctionDescriptor>, TypeRegistry),
    cfg: ExportConfiguration,
    header: &str,
) -> (r: Result<String, ExportFailure>)
    ensures
        declarations_are_fixed(cfg, result.1.entries@) ==> outcome(r) == exported(
            Dialect::Typed,
            cfg,
            result.0@,
            result.1.entries@,
            header@,
        ),
        built_on_functions(Dialect::Typed, cfg, result.0@, header@, outcome(r)),
{
    export_document(Dialect::Typed, &cfg, &result.0, &result.1, header)
}

/// The text of a TypeScript file for the collected descriptors, under the
/// default configuration and behind the default banner. Where collecting
/// them failed, that failure is handed on and nothing is rendered.
pub fn export(macro_data: Result<(Vec<FunctionDescriptor>, TypeRegistry), ExportError>) -> (r: Result<String, ExportFailure>)
    ensures
        match macro_data {
            Err(e) => r == Err::<String, ExportFailure>(ExportFailure::UpstreamModel(e)),
            Ok(model) => exists|cfg: ExportConfiguration|
                is_default_configuration(cfg) && outcome(r) == #[trigger] exported(
                    Dialect::Typed,
                    cfg,
                    model.0@,
                    model.1.entries@,
                    ESLINT_DISABLE@,
                ),
        },
{
    match macro_data {
        Err(e) => Err(ExportFailure::UpstreamModel(e)),
        Ok(model) => {
            let cfg = default_configuration();
            let r = export_document(Dialect::Typed, &cfg, &model.0, &model.1, ESLINT_DISABLE);
            assert(outcome(r) == exported(Dialect::Typed, cfg, model.0@, model.1.entries@, ESLINT_DISABLE@));
            r
        },
    }
}

} // verus!
