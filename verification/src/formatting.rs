//! The boundary to the crates that this library builds on: `specta`, which
//! knows how a type is spelled in TypeScript, and `heck`, which knows how a
//! name is camel-cased. Nothing here is proved; each contract records what the
//! library relies on.

use vstd::prelude::*;
use specta::DataType;
use specta::NamedDataType;
use specta::ts::ExportConfiguration;
use specta::ts::TsExportError;

verus! {

/// `specta::DataType`: the description of a type. Only `specta` looks inside.
#[verifier::external_type_specification]
#[verifier::external_body]
pub struct ExDataType(specta::DataType);

/// `specta::NamedDataType`: the description of a type that has a declaration
/// of its own.
#[verifier::external_type_specification]
#[verifier::external_body]
pub struct ExNamedDataType(specta::NamedDataType);

/// `specta::ts::ExportConfiguration`: how types are to be spelled.
#[verifier::external_type_specification]
#[verifier::external_body]
pub struct ExExportConfiguration(specta::ts::ExportConfiguration);

/// `specta::ts::TsExportError`: why a type could not be spelled.
#[verifier::external_type_specification]
#[verifier::external_body]
pub struct ExTsExportError(specta::ts::TsExportError);

/// `specta::ExportError`: why the function descriptors could not be collected.
#[verifier::external_type_specification]
#[verifier::external_body]
pub struct ExExportError(specta::ExportError);

/// What `specta::ts::datatype` returns for `ty` under `cfg`: the type's
/// spelling where it is used, or the reason why it has none.
pub uninterp spec fn inline_type(cfg: ExportConfiguration, ty: DataType) -> Result<Seq<char>, TsExportError>;

/// What `specta::ts::export_datatype` returns for `ty` under `cfg`: the
/// type's declaration, or the reason why it has none. It stands for that
/// result only under a configuration that `formats_comments_as_function`.
pub uninterp spec fn type_declaration(cfg: ExportConfiguration, ty: NamedDataType) -> Result<Seq<char>, TsExportError>;

/// Whether the comment formatter that `cfg` holds, if it holds one, behaves
/// as a function: it returns, and for the same lines it returns the same
/// text. A configuration takes any `fn(&[&str]) -> String` as its formatter,
/// so this is not true of every one.
pub uninterp spec fn formats_comments_as_function(cfg: ExportConfiguration) -> bool;

/// What `heck::ToLowerCamelCase::to_lower_camel_case` returns for `name`.
pub uninterp spec fn lower_camel_case(name: Seq<char>) -> Seq<char>;

/// What `str::trim_start` returns for `line`: the line without the
/// whitespace it begins with.
pub uninterp spec fn trimmed_start(line: Seq<char>) -> Seq<char>;

/// Each of `lines` without the whitespace it begins with.
pub open spec fn trimmed(lines: Seq<Seq<char>>) -> Seq<Seq<char>> {
    Seq::new(lines.len(), |i: int| trimmed_start(lines[i]))
}

/// The inside of a comment block: each line behind ` * ` and with a line
/// end after it.
pub open spec fn comment_lines(lines: Seq<Seq<char>>) -> Seq<char>
    decreases lines.len(),
{
    if lines.len() == 0 {
        Seq::empty()
    } else {
        comment_lines(lines.drop_last()) + " * "@ + lines.last() + "\n"@
    }
}

/// The comment block that `specta::ts::js_doc` builds around lines it has
/// trimmed: nothing at all where there are no lines, else the lines between
/// `/**` and ` */`, each on a line of its own.
pub open spec fn doc_comment(lines: Seq<Seq<char>>) -> Seq<char> {
    if lines.len() == 0 {
        Seq::empty()
    } else {
        "/**\n"@ + comment_lines(lines) + " */\n"@
    }
}

/// Whether `cfg` is the configuration that `ExportConfiguration::default`
/// returns.
pub uninterp spec fn is_default_configuration(cfg: ExportConfiguration) -> bool;

/// A formatting result with its text taken as a sequence of characters.
pub open spec fn text_of(r: Result<String, TsExportError>) -> Result<Seq<char>, TsExportError> {
    match r {
        Ok(s) => Ok(s@),
        Err(e) => Err(e),
    }
}

/// Calls `specta::ts::datatype`. The contract names the result and claims
/// nothing about it but that it depends on `cfg` and `ty` alone.
#[verifier::external_body]
pub(crate) fn format_inline(cfg: &ExportConfiguration, ty: &DataType) -> (r: Result<String, TsExportError>)
    ensures
        text_of(r) == inline_type(*cfg, *ty),
{
    specta::ts::datatype(cfg, ty)
}

/// Calls `specta::ts::export_datatype`, which puts in front of the
/// declaration what the comment formatter of `cfg` makes of the type's
/// comments. Where that formatter behaves as a function, the result depends
/// on `cfg` and `ty` alone, and the contract names it. Of any other
/// configuration nothing is claimed.
#[verifier::external_body]
pub(crate) fn format_declaration(cfg: &ExportConfiguration, ty: &NamedDataType) -> (r: Result<String, TsExportError>)
    ensures
        formats_comments_as_function(*cfg) ==> text_of(r) == type_declaration(*cfg, *ty),
{
    specta::ts::export_datatype(cfg, ty)
}

/// Calls `heck::ToLowerCamelCase::to_lower_camel_case` on `name`. The
/// contract names the result.
#[verifier::external_body]
pub(crate) fn camel_case(name: &str) -> (out: String)
    ensures
        out@ == lower_camel_case(name@),
{
    heck::ToLowerCamelCase::to_lower_camel_case(name)
}

/// Calls `specta::ts::js_doc` on `lines`. The contract states the whole
/// result as the function builds it, and leaves open only which characters
/// `str::trim_start` takes from the start of a line.
#[verifier::external_body]
pub(crate) fn js_doc(lines: &Vec<String>) -> (out: String)
    ensures
        out@ == doc_comment(Seq::new(lines@.len(), |i: int| trimmed_start(lines@[i]@))),
{
    let borrowed: Vec<&str> = lines.iter().map(|line| line.as_str()).collect();
    specta::ts::js_doc(&borrowed)
}

/// Calls `ExportConfiguration::default`. The contract says of the result
/// that it is that configuration, and that its comment formatter behaves as
/// a function: it is `specta::ts::js_doc`, which builds its text from its
/// lines alone.
#[verifier::external_body]
pub(crate) fn default_configuration() -> (cfg: ExportConfiguration)
    ensures
        is_default_configuration(cfg),
        formats_comments_as_function(cfg),
{
    ExportConfiguration::default()
}

} // verus!
