//! The untyped dialect: JavaScript source, in which the types of parameters
//! and results appear in the documentation comments only and no type is
//! declared.

use vstd::prelude::*;
use specta::ExportError;
use specta::ts::ExportConfiguration;
use crate::formatting::{default_configuration, is_default_configuration};
use crate::layout::{globals_block, globals_text, ESLINT_DISABLE};
use crate::model::{outcome, Dialect, ExportFailure, FunctionDescriptor, TypeRegistry};
use crate::pipeline::{
    export_document, exported, formatting_outcome, into_outcome, render_document,
    render_function_block, rendered_document, rendered_functions,
};

verus! {

/// Constants that the generated functions rely on.
pub fn globals() -> (out: String)
    ensures
        out@ == globals_text(Dialect::Untyped),
{
    globals_block(Dialect::Untyped)
}

/// Renders a collection of function descriptors into JavaScript: one
/// exported function each, in input order, or the first formatting failure.
pub fn render_functions(function_types: Vec<FunctionDescriptor>, cfg: &ExportConfiguration) -> (r: Result<String, ExportFailure>)
    ensures
        outcome(r) == formatting_outcome(rendered_functions(Dialect::Untyped, *cfg, function_types@)),
{
    into_outcome(render_function_block(Dialect::Untyped, cfg, &function_types))
}

/// Renders the notice, the globals and the functions into one JavaScript
/// document.
pub fn render(function_types: Vec<FunctionDescriptor>, cfg: &ExportConfiguration) -> (r: Result<String, ExportFailure>)
    ensures
        outcome(r) == formatting_outcome(
            rendered_document(Dialect::Untyped, *cfg, function_types@, Seq::empty()),
        ),
{
    let no_types = TypeRegistry { entries: Vec::new() };
    into_outcome(render_document(Dialect::Untyped, cfg, &function_types, &no_types))
}

/// The text of a JavaScript file for `result` under `cfg`, behind the
/// default banner. The registry is not looked at.
pub fn export_with_cfg(result: (Vec<FunctionDescriptor>, TypeRegistry), cfg: ExportConfiguration) -> (r: Result<String, ExportFailure>)
    ensures
        outcome(r) == exported(Dialect::Untyped, cfg, result.0@, Seq::empty(), ESLINT_DISABLE@),
{
    export_with_cfg_with_header(result, cfg, ESLINT_DISABLE)
}

/// The text of a JavaScript file for `result` under `cfg`, behind `header`.
/// The registry is not looked at.
pub fn export_with_cfg_with_header(
    result: (Vec<FunctionDescriptor>, TypeRegistry),
    cfg: ExportConfiguration,
    header: &str,
) -> (r: Result<String, ExportFailure>)
    ensures
        outcome(r) == exported(Dialect::Untyped, cfg, result.0@, Seq::empty(), header@),
{
    export_document(Dialect::Untyped, &cfg, &result.0, &result.1, header)
}

/// The text of a JavaScript file for the collected descriptors, under the
/// default configuration and behind the default banner. Where collecting
/// them failed, that failure is handed on and nothing is rendered.
pub fn export(macro_data: Result<(Vec<FunctionDescriptor>, TypeRegistry), ExportError>) -> (r: Result<String, ExportFailure>)
    ensures
        match macro_data {
            Err(e) => r == Err::<String, ExportFailure>(ExportFailure::UpstreamModel(e)),
            Ok(model) => exists|cfg: ExportConfiguration|
                is_default_configuration(cfg) && outcome(r) == #[trigger] exported(
                    Dialect::Untyped,
                    cfg,
                    model.0@,
                    Seq::empty(),
                    ESLINT_DISABLE@,
                ),
        },
{
    match macro_data {
        Err(e) => Err(ExportFailure::UpstreamModel(e)),
        Ok(model) => {
            let cfg = default_configuration();
            let r = export_document(Dialect::Untyped, &cfg, &model.0, &model.1, ESLINT_DISABLE);
            assert(outcome(r) == exported(Dialect::Untyped, cfg, model.0@, Seq::empty(), ESLINT_DISABLE@));
            r
        },
    }
}

} // verus!
