//! Client bindings for backend commands: renders a set of function
//! descriptors into TypeScript or JavaScript source that calls each command
//! through the `invoke` bridge.

pub mod text;
pub mod formatting;
pub mod model;
pub mod layout;
pub mod pipeline;
pub mod ts;
pub mod js;
pub mod laws;
