//! A deterministic divination core: a prompt and a calendar date are collapsed
//! into a 32-byte seed, the seed drives a ChaCha12 generator, and six weighted
//! three-coin throws become a hexagram with a canonical text encoding.

pub mod date;
pub mod line;
pub mod seed;
pub mod thrower;
