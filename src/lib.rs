//! Message passing and bus sharing for a cooperative multi-task controller:
//! a bounded broadcast channel with lag reporting, a shared-bus arbiter with
//! per-transaction configuration, and the decision steps of the bridge tasks.

pub mod channel;
pub mod arbiter;
pub mod bridge;
