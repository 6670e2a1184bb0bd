//! Verified decision core of a setuid mail forwarder.
//!
//! Mail addressed to the local superuser is handed to this program by the
//! mail transport agent. The modules below decide, for up to two installed
//! products, which configuration governs the forwarding, who receives the
//! message, and in which order the unverified driver may touch the outside
//! world. Every decision is stated as a contract and proved.

pub mod accounts;
pub mod dispatch;
pub mod error;
pub mod policy;
pub mod privilege;
pub mod product;
pub mod route;
pub mod run;
pub mod source;
pub mod text;
pub mod transmit;
