//! A static-analysis rule that flags object destructuring in the parameter
//! list of single-parameter functions that render markup. Destructuring copies
//! values out at binding time and breaks the reactivity contract that asks
//! callers to read properties through a stable reference (`props.field`), so
//! each destructured field is reported with the exact span of its name token.

pub mod detect;
pub mod laws;
pub mod model;
pub mod rule;
