use vstd::prelude::*;

use crate::tokens::{tokenize, tokens};
use fnv::FnvHasher;
use gaoya::minhash::MinHasher32;
use std::hash::BuildHasherDefault;

verus! {

/// Number of bands of the standard configuration.
pub const NUM_BANDS: usize = 42;

/// Number of hash functions in each band of the standard configuration.
pub const BAND_WIDTH: usize = 3;

/// gaoya's `MinHasher32`, carried as an opaque value: its hash family.
#[verifier::external_type_specification]
#[verifier::external_body]
#[verifier::reject_recursive_types(B)]
pub struct ExMinHasher32<B: std::hash::BuildHasher>(MinHasher32<B>);

/// std's `BuildHasherDefault`, opaque: the hasher factory of `MinHasher32`.
#[verifier::external_type_specification]
#[verifier::external_body]
#[verifier::reject_recursive_types(H)]
pub struct ExBuildHasherDefault<H>(BuildHasherDefault<H>);

/// fnv's `FnvHasher`, opaque: the token hash that `MinHasher32::new` uses.
#[verifier::external_type_specification]
#[verifier::external_body]
pub struct ExFnvHasher(FnvHasher);

/// What `str::to_lowercase` returns for a text.
pub uninterp spec fn lower_of(s: Seq<char>) -> Seq<char>;

/// The MinHash signature that gaoya's `MinHasher32::new(num_hashes)` computes
/// for a sequence of tokens.
pub uninterp spec fn minhash_of(num_hashes: nat, toks: Seq<Seq<char>>) -> Seq<u32>;

/// The signature of a text that is already lowercased.
pub open spec fn normalized_signature(num_hashes: nat, s: Seq<char>) -> Seq<u32> {
    minhash_of(num_hashes, tokens(s))
}

/// The signature of a raw text: lowercase it, then sign its tokens.
pub open spec fn text_signature(num_hashes: nat, t: Seq<char>) -> Seq<u32> {
    normalized_signature(num_hashes, lower_of(t))
}

/// The signature of a document without tokens.
pub open spec fn empty_signature(num_hashes: nat) -> Seq<u32> {
    Seq::new(num_hashes, |i: int| 0u32)
}

/// Relies on `str::to_lowercase`: the full Unicode lowercase mapping, which
/// depends on the characters alone; an empty text stays empty.
#[verifier::external_body]
fn lowercase(s: &str) -> (r: String)
    ensures
        r@ == lower_of(s@),
        s@.len() == 0 ==> r@.len() == 0,
{
    s.to_lowercase()
}

/// Relies on gaoya's `MinHasher32::new`: a hasher with `num_hashes` hash
/// functions, drawn from a generator with a fixed seed.
#[verifier::external_body]
fn new_hasher(num_hashes: usize) -> MinHasher32<BuildHasherDefault<FnvHasher>> {
    MinHasher32::new(num_hashes)
}

/// A MinHash signature generator: a fixed family of `num_bands * band_width`
/// hash functions, built once and shared by every document it signs.
pub struct SignatureGenerator {
    hasher: MinHasher32<BuildHasherDefault<FnvHasher>>,
    num_bands: usize,
    band_width: usize,
}

impl SignatureGenerator {
    /// Number of bands.
    pub closed spec fn bands(&self) -> nat {
        self.num_bands as nat
    }

    /// Number of hash functions in each band.
    pub closed spec fn width(&self) -> nat {
        self.band_width as nat
    }

    /// Number of hash functions, which is the length of every signature.
    pub open spec fn hashes(&self) -> nat {
        self.bands() * self.width()
    }

    /// Both dimensions are positive and their product fits in `usize`.
    pub open spec fn wf(&self) -> bool {
        &&& self.bands() > 0
        &&& self.width() > 0
        &&& self.hashes() <= usize::MAX
    }

    /// Builds the hash family for `num_bands` bands of `band_width` functions.
    pub fn new(num_bands: usize, band_width: usize) -> (g: Self)
        requires
            num_bands > 0,
            band_width > 0,
            num_bands * band_width <= usize::MAX,
        ensures
            g.wf(),
            g.bands() == num_bands,
            g.width() == band_width,
    {
        let n = num_bands * band_width;
        SignatureGenerator { hasher: new_hasher(n), num_bands, band_width }
    }

    /// Number of bands.
    pub fn num_bands(&self) -> (r: usize)
        ensures
            r == self.bands(),
    {
        self.num_bands
    }

    /// Number of hash functions in each band.
    pub fn band_width(&self) -> (r: usize)
        ensures
            r == self.width(),
    {
        self.band_width
    }

    /// Length of every signature this generator makes.
    pub fn num_hashes(&self) -> (r: usize)
        requires
            self.wf(),
        ensures
            r == self.hashes(),
    {
        self.num_bands * self.band_width
    }

    /// Relies on gaoya's `MinHasher::create_signature` for `MinHasher32`, whose
    /// hasher `new` built with `num_bands * band_width` functions: one value
    /// per function, and all zeros when there are no tokens.
    #[verifier::external_body]
    fn hash_tokens(&self, toks: &Vec<String>) -> (r: Vec<u32>)
        ensures
            r@ == minhash_of(self.hashes(), toks.deep_view()),
            r@.len() == self.hashes(),
            toks.len() == 0 ==> r@ == empty_signature(self.hashes()),
    {
        gaoya::minhash::MinHasher::create_signature(&self.hasher, toks.iter())
    }

    /// Signs a text that is already lowercased.
    pub fn signature_of_normalized(&self, normalized: &str) -> (r: Vec<u32>)
        requires
            self.wf(),
        ensures
            r@ == normalized_signature(self.hashes(), normalized@),
            r@.len() == self.hashes(),
            tokens(normalized@).len() == 0 ==> r@ == empty_signature(self.hashes()),
    {
        let toks = tokenize(normalized);
        self.hash_tokens(&toks)
    }

    /// Signs a raw text: lowercases it, splits it into tokens and hashes them.
    pub fn signature(&self, text: &str) -> (r: Vec<u32>)
        requires
            self.wf(),
        ensures
            r@ == text_signature(self.hashes(), text@),
            r@.len() == self.hashes(),
            text@.len() == 0 ==> r@ == empty_signature(self.hashes()),
    {
        let lowered = lowercase(text);
        proof {
            if text@.len() == 0 {
                assert(lowered@ == Seq::<char>::empty());
            }
        }
        self.signature_of_normalized(lowered.as_str())
    }
}

/// Signature of `text` with the standard configuration.
pub fn minhash_text(text: String) -> (r: Vec<u32>)
    ensures
        r@ == text_signature((NUM_BANDS * BAND_WIDTH) as nat, text@),
        r@.len() == NUM_BANDS * BAND_WIDTH,
        text@.len() == 0 ==> r@ == empty_signature((NUM_BANDS * BAND_WIDTH) as nat),
{
    let g = SignatureGenerator::new(NUM_BANDS, BAND_WIDTH);
    g.signature(text.as_str())
}

} // verus!
