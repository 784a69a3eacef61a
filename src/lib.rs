//! Control core of a proof-of-stake node: the block acceptor that gathers
//! finality signatures until a block may be executed, and the reactor control
//! loop that moves the node between its operational phases.

pub mod acceptor;
pub mod commit;
pub mod diagnostics;
pub mod latch;
pub mod reactor;
pub mod types;
pub mod weights;
