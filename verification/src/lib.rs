//! Reverse-mode automatic differentiation over an append-only computation
//! tape, with gradient-descent and AdamW parameter update rules.

pub mod autograd;
pub mod laws;
pub mod optimizer;
pub mod scalar;
