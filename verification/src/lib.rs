pub mod contract;
pub mod crypto;
pub mod encoding;
pub mod gate;
pub mod laws;
pub mod noir_verifier;
pub mod room;
pub mod settle;
