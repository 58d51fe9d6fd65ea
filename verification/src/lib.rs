//! A delegated-spending authorization engine.
//!
//! A custodian identity delegates limited payment authority to an agent
//! identity. The agent may move value on the custodian's behalf up to a
//! rolling daily cap, and may request ad-hoc payments above that cap which
//! require explicit custodian approval.
//!
//! The engine is a pure state machine: every operation validates
//! authorization and invariants, mutates the in-memory state, appends one
//! domain event, and, where value moves, returns the transfer instruction
//! that the surrounding environment must execute atomically with the
//! operation. Execution of transfers, caller authentication and durable
//! storage are the environment's concern, not the engine's.

pub mod engine;
pub mod errors;
pub mod events;
pub mod identity;
pub mod laws;
pub mod ledger;
pub mod state;

pub use engine::Engine;
pub use errors::ErrorCode;
pub use events::Event;
pub use identity::Identity;
pub use ledger::TransferInstruction;
pub use state::Agent;
pub use state::PaymentRequest;
pub use state::PaymentStatus;
pub use state::Registry;
pub use state::RequestKey;
