//! The instructions of the programs that the library recognises, as far as
//! it reads them.
pub mod spl_token;
pub mod spl_token_2022;
pub mod system;
