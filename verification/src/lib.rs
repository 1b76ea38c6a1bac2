//! Decodes the instructions of a transaction into a tree, resolves the
//! positions by which instructions name their accounts, and filters
//! transactions by what the tree and the record show.
pub mod api;
pub mod base58;
pub mod instruction_parser;
pub mod instructions;
pub mod layout;
pub mod parsed_instruction;
pub mod pubkeys;
pub mod token_transfer_data;
pub mod transaction;
pub mod utils;
