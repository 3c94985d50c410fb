use minhash_sig::{minhash_text, tokenize, SignatureGenerator, BAND_WIDTH, NUM_BANDS};

fn matching_positions(a: &[u32], b: &[u32]) -> usize {
    a.iter().zip(b.iter()).filter(|&(x, y)| x == y).count()
}

#[test]
fn test_minhash_same_text() {
    // Same text should produce same hash
    let text1 = "hello world".to_string();
    let text2 = "hello world".to_string();
    assert_eq!(minhash_text(text1), minhash_text(text2));
}

#[test]
fn test_minhash_different_text() {
    // Different text should produce different hash
    let text1 = "hello world".to_string();
    let text2 = "hello there".to_string();

    let value1 = minhash_text(text1);
    let value2 = minhash_text(text2);

    assert_ne!(value1, value2);

    let similarity = value1
        .iter()
        .zip(value2.iter())
        .filter(|&(a, b)| a == b)
        .count() as f32;
    assert!(similarity > 0.9);
}

#[test]
fn test_minhash_case_insensitive() {
    // Case insensitive comparison
    let text1 = "hello world".to_string();
    let text2 = "HELLO WORLD".to_string();
    assert_eq!(minhash_text(text1), minhash_text(text2));
}

#[test]
fn test_minhash_whitespace() {
    // Extra whitespace should not affect the hash
    let text1 = "hello    world".to_string();
    let text2 = "hello world".to_string();
    assert_eq!(minhash_text(text1), minhash_text(text2));
}

#[test]
fn test_minhash_empty_string() {
    // Empty string should produce expected output
    let empty = String::new();
    let result = minhash_text(empty);
    assert_eq!(result.len(), 126); // 42 bands * 3 width = 126
    assert!(result.iter().all(|&x| x == 0)); // Empty string should produce all zeros
}

#[test]
fn identical_texts_give_identical_signatures() {
    let a = minhash_text("hello world".to_string());
    let b = minhash_text("hello world".to_string());
    assert_eq!(a.len(), 126);
    assert_eq!(a, b);
}

#[test]
fn mixed_case_gives_same_signature() {
    let a = minhash_text("The Quick Brown Fox".to_string());
    let b = minhash_text("tHE qUICK bROWN fOX".to_string());
    let c = minhash_text("the quick brown fox".to_string());
    assert_eq!(a, c);
    assert_eq!(b, c);
}

#[test]
fn leading_trailing_and_mixed_whitespace_is_ignored() {
    let a = minhash_text("  hello\t\tworld \n\r ".to_string());
    let b = minhash_text("hello world".to_string());
    assert_eq!(a, b);
    let c = minhash_text("hello\u{3000}world\u{a0}".to_string());
    assert_eq!(c, b);
}

#[test]
fn signature_length_is_fixed() {
    assert_eq!(NUM_BANDS * BAND_WIDTH, 126);
    for text in ["", "a", "one two three", "many words are here in this longer text"] {
        assert_eq!(minhash_text(text.to_string()).len(), 126);
    }
}

#[test]
fn whitespace_only_text_gives_all_zeros() {
    let result = minhash_text(" \t\n  ".to_string());
    assert_eq!(result, vec![0u32; 126]);
}

#[test]
fn nonempty_text_signature_is_not_all_zeros() {
    let result = minhash_text("hello".to_string());
    assert!(result.iter().any(|&x| x != 0));
}

#[test]
fn near_duplicates_match_in_most_positions() {
    let base = "alpha bravo charlie delta echo foxtrot golf hotel india juliet kilo lima \
                mike november oscar papa quebec romeo sierra tango uniform victor whiskey \
                xray yankee zulu one two three four";
    let changed = base.replace("papa", "pepper");
    let a = minhash_text(base.to_string());
    let b = minhash_text(changed);
    assert_ne!(a, b);
    let same = matching_positions(&a, &b);
    assert!(same * 100 > 126 * 80, "only {} positions match", same);
}

#[test]
fn unrelated_documents_match_in_few_positions() {
    let a = minhash_text("alpha bravo charlie delta echo foxtrot golf hotel india juliet".to_string());
    let b = minhash_text("one two three four five six seven eight nine ten".to_string());
    let same = matching_positions(&a, &b);
    assert!(same * 100 < 126 * 10, "{} positions match", same);
}

#[test]
fn tokenize_splits_on_whitespace_runs() {
    assert_eq!(tokenize("  hello\t\tworld \n"), vec!["hello".to_string(), "world".to_string()]);
    assert_eq!(tokenize(""), Vec::<String>::new());
    assert_eq!(tokenize(" \t "), Vec::<String>::new());
    assert_eq!(tokenize("a,b c."), vec!["a,b".to_string(), "c.".to_string()]);
    assert_eq!(tokenize("x\u{3000}y\u{2028}z"), vec!["x".to_string(), "y".to_string(), "z".to_string()]);
    assert_eq!(tokenize("héllo wörld"), vec!["héllo".to_string(), "wörld".to_string()]);
}

#[test]
fn generator_of_other_dimensions() {
    let g = SignatureGenerator::new(4, 2);
    assert_eq!(g.num_bands(), 4);
    assert_eq!(g.band_width(), 2);
    assert_eq!(g.num_hashes(), 8);
    assert_eq!(g.signature(""), vec![0u32; 8]);
    assert_eq!(g.signature("some words").len(), 8);
}

#[test]
fn generator_is_reusable_across_documents() {
    let g = SignatureGenerator::new(NUM_BANDS, BAND_WIDTH);
    let first = g.signature("hello world");
    let _other = g.signature("something else entirely");
    assert_eq!(g.signature("hello world"), first);
    assert_eq!(first, minhash_text("hello world".to_string()));
}

#[test]
fn raw_signature_lowercases_before_signing() {
    let g = SignatureGenerator::new(NUM_BANDS, BAND_WIDTH);
    let raw = g.signature("HELLO World");
    assert_eq!(raw, g.signature_of_normalized("hello world"));
    assert_ne!(raw, g.signature_of_normalized("HELLO World"));
}

#[test]
fn normalized_signature_of_no_tokens_is_zero() {
    let g = SignatureGenerator::new(NUM_BANDS, BAND_WIDTH);
    assert_eq!(g.signature_of_normalized("   "), vec![0u32; 126]);
}

#[test]
fn token_order_does_not_matter() {
    let a = minhash_text("red green blue".to_string());
    let b = minhash_text("blue red green".to_string());
    assert_eq!(a, b);
}
