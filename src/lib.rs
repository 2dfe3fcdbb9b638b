//! Reinforcement learning around a domain-defined decision process.
//!
//! The domain implements [`mdp::State`] and [`mdp::Agent`]. Exploration and
//! termination strategies ([`strategy`]) drive the agent while transitions are
//! gathered into fixed-capacity batches ([`batch`]) for a value learner. A
//! learner with an online and a target network keeps them in a
//! [`target_sync::NetworkPair`], and decodes the action vectors of a batch
//! with [`action_code::decode_action_index`].

pub mod action_code;
pub mod batch;
pub mod mdp;
pub mod strategy;
pub mod target_sync;
