//! Verified core of a multi-armed bandit library: the xorshift64 generator
//! that drives every agent, the integer bookkeeping of the agents, and the
//! rules by which they pick an arm.

pub mod counts;
pub mod epsilon_greedy;
pub mod order;
pub mod rng;
pub mod select;
pub mod thompson;
pub mod ucb1;
