//! Task provisioning for federated-learning training sessions on a pair of
//! DAP aggregators (a leader and a helper): the message types exchanged with
//! the aggregators' task servers, the fixed-point parameter types, the HPKE key
//! registry, the bookkeeping of training sessions on the server side, and the
//! decisions that the client takes while talking to both aggregators.
pub mod outside;
pub mod messages;
pub mod hpke;
pub mod fixed;
pub mod provisioner;
pub mod janus_tasks_client;
pub mod laws;
