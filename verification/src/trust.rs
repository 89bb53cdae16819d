//! Trust decisions: which keys and recipient sets a command may rely on,
//! what a caller must review first, and what an approval records.

pub mod policy;
pub mod candidate;
pub mod evaluation;
pub mod snapshot;
pub mod recovery;
pub mod evaluator;
pub mod review;
