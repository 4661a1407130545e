//! What an export is made from: the descriptors of the backend's functions,
//! the registry of the types they refer to, the two dialects, and the ways an
//! export can fail.

use vstd::prelude::*;
use specta::DataType;
use specta::NamedDataType;
use specta::ExportError;
use specta::ts::TsExportError;

verus! {

/// One parameter of a backend function: its name as the backend spells it,
/// and its type.
#[derive(Debug)]
pub struct Parameter {
    pub name: String,
    pub ty: DataType,
}

/// One function that the backend offers.
#[derive(Debug)]
pub struct FunctionDescriptor {
    /// The name under which the backend registered the function.
    pub name: String,
    /// The parameters, in the order in which they are declared.
    pub args: Vec<Parameter>,
    /// The type of what the function returns.
    pub result: DataType,
    /// The lines of the function's documentation.
    pub docs: Vec<String>,
}

/// The types that the functions refer to: one entry per type identifier,
/// in the order of the identifiers. An entry without a descriptor stands for
/// a type that gets no declaration. A renderer reads the entries in that
/// order and never looks a type up, so the registry holds the entries
/// themselves and not the identifiers, whose order only `specta` knows.
#[derive(Debug)]
pub struct TypeRegistry {
    pub entries: Vec<Option<NamedDataType>>,
}

/// The flavour of the generated source.
#[derive(Clone, Copy, Debug, PartialEq, Eq, Structural)]
pub enum Dialect {
    /// TypeScript: parameters and results carry their types.
    Typed,
    /// JavaScript: the types appear in the documentation comments only.
    Untyped,
}

/// Why an export produced no document.
#[derive(Debug)]
pub enum ExportFailure {
    /// The function descriptors could not be collected in the first place.
    UpstreamModel(ExportError),
    /// A type has no spelling under the configuration in use.
    TypeFormatting(TsExportError),
}

/// The outcome of an export with its document taken as a sequence of
/// characters.
pub open spec fn outcome(r: Result<String, ExportFailure>) -> Result<Seq<char>, ExportFailure> {
    match r {
        Ok(s) => Ok(s@),
        Err(e) => Err(e),
    }
}

impl Dialect {
    /// Whether declared parameters and the bridge call carry type
    /// annotations.
    pub open spec fn annotates_types(self) -> bool {
        self == Dialect::Typed
    }

    /// Whether the documentation comment gains a line per parameter and one
    /// for the result.
    pub open spec fn synthesizes_docs(self) -> bool {
        self == Dialect::Untyped
    }

    /// What stands between two forwarded argument names.
    pub open spec fn forward_separator(self) -> Seq<char> {
        match self {
            Dialect::Typed => ", "@,
            Dialect::Untyped => ","@,
        }
    }
}

} // verus!
