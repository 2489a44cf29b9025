//! The node's stack: provisioning and the provisioning link, the upper and
//! lower transport layers, replay protection, the transmit queue, the
//! configuration tables and the decisions about persisting them.

pub mod hash;
pub mod sequence;
pub mod storage;
pub mod watchdog;
pub mod deadline;
pub mod pdu;
pub mod system;
pub mod block_ack;
pub mod inbound;
pub mod outbound;
pub mod lru;
pub mod replay;
pub mod transmit_queue;
pub mod secrets;
pub mod tables;
pub mod upper;
pub mod lower;
pub mod stack;
pub mod advertising;
pub mod provisioning_pdu;
pub mod provisionee;
pub mod provisioner;
