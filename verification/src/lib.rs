//! Configuration of parachains for a test network: the values that describe a
//! parachain and its collators, with the rules that each value must obey, and
//! builders that check every value and collect every error they find.
pub mod errors;
pub mod image;
pub mod laws;
pub mod net;
pub mod node;
pub mod parachain;
pub mod quantity;
pub mod readback;
pub mod resources;
pub mod text;
pub mod types;
