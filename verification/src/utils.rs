pub mod hex;
pub mod pow;
pub mod requests;
