//! Verified core of a statistical-arbitrage paper-trading engine: market data
//! types, the rolling price windows and position logic of the pair strategy,
//! the engine's command and routing decisions, and the request texts that the
//! exchange clients send.

pub mod market;
pub mod clock;
pub mod text;
pub mod window;
pub mod strategy;
pub mod engine;
pub mod venues;
pub mod display;
