pub mod address;
pub mod errors;
pub mod fruits;
pub mod generate_keypair;
pub mod numeric_id;
pub mod padded_text;
pub mod satellites;
pub mod solana;

pub use address::Address;
