//! Gateway core that bridges a ledger network to an application-facing
//! service: it tracks externally submitted messages until they are confirmed
//! or expire, routes observed ledger transactions to typed observers, and
//! advances persisted records through their delivery lifecycle.

pub mod address;
pub mod models;
pub mod queue;
pub mod router;
pub mod service;
pub mod storage;
pub mod ton_core;
