//! MinHash signatures of text documents: lowercase the text, split it into
//! whitespace-separated tokens, and keep for each hash function of a fixed
//! family the least value it takes over the tokens.

pub mod laws;
pub mod signature;
pub mod tokens;

pub use signature::{minhash_text, SignatureGenerator, BAND_WIDTH, NUM_BANDS};
pub use tokens::tokenize;
