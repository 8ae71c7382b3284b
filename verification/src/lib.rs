//! A bonding-curve exchange engine for newly minted fungible tokens.
//!
//! Anyone may open a launch whose price follows a deterministic
//! constant-product curve over virtual reserves until real funding reaches a
//! graduation threshold, after which the launch is handed to an external
//! venue. The engine is the pricing and reserve arithmetic together with the
//! layered trading controls (cooldowns, progressive wallet caps,
//! launch-window defenses, a first-block circuit breaker) and the lifecycle
//! that applies them atomically: a failing check returns an error and leaves
//! every counter untouched.
//!
//! The token ledger itself (mint, burn, freeze), native-currency transfers,
//! storage and the clock are external collaborators: the host performs them,
//! feeding this engine plain values and executing the outcomes it returns.

pub mod errors;
pub mod guard;
pub mod lifecycle;
pub mod pricing;
pub mod state;
