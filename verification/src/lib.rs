//! Persistence core of a certificate-status responder: given a stored
//! certificate record (or its absence) and a policy flag, decide whether the
//! certificate is Good, Unknown, or Revoked with a resolved time and reason;
//! plus backend selection, connection-parameter resolution, and idempotent
//! schema-provisioning plans for the two supported backends.

pub mod conn;
pub mod provision;
pub mod reason;
pub mod record;
pub mod selector;
pub mod status;
pub mod strutil;
pub mod timestamp;
