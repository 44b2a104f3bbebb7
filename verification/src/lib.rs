//! Boundary contract between a turn-based card-game engine and a pluggable
//! decision agent: the fixed-layout records the two sides exchange, the
//! decoding of their padded fixed-size encodings into natural views, and the
//! decision logic that always returns a legal action.

pub mod protocol;
pub mod wire;
