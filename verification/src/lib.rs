//! A layout-size validity cache: small value types that record the result of
//! a previous size-negotiation pass, together with whether that result was
//! capped by the request that produced it, so that a layout engine can decide
//! in constant time whether a cached size is still correct for a new request.

pub mod cache;
pub mod xy;

pub use cache::SizeCache;
pub use xy::Vec2;
pub use xy::XY;
