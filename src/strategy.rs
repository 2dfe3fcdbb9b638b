//! Strategies that steer training: how the next action is explored, and when
//! training ends.

pub mod explore;
pub mod terminate;
