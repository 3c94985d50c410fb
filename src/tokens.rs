use vstd::prelude::*;

verus! {

/// Whether `c` carries the Unicode `White_Space` property.
pub open spec fn white_space(c: char) -> bool {
    let u = c as u32;
    (0x9 <= u && u <= 0xd) || u == 0x20 || u == 0x85 || u == 0xa0 || u == 0x1680
        || (0x2000 <= u && u <= 0x200a) || u == 0x2028 || u == 0x2029 || u == 0x202f
        || u == 0x205f || u == 0x3000
}

/// Tests a character for the Unicode `White_Space` property.
pub fn is_white_space(c: char) -> (r: bool)
    ensures
        r == white_space(c),
{
    let u = c as u32;
    (0x9 <= u && u <= 0xd) || u == 0x20 || u == 0x85 || u == 0xa0 || u == 0x1680
        || (0x2000 <= u && u <= 0x200a) || u == 0x2028 || u == 0x2029 || u == 0x202f
        || u == 0x205f || u == 0x3000
}


/// The token under construction, as a list of zero or one tokens.
pub open spec fn flush(cur: Seq<char>) -> Seq<Seq<char>> {
    if cur.len() == 0 {
        Seq::empty()
    } else {
        seq![cur]
    }
}

/// Scans `s` left to right with `cur` as the token read so far: each whitespace
/// character ends the current token, each other character extends it.
pub open spec fn tokens_from(cur: Seq<char>, s: Seq<char>) -> Seq<Seq<char>>
    decreases s.len(),
{
    if s.len() == 0 {
        flush(cur)
    } else if white_space(s[0]) {
        flush(cur) + tokens_from(Seq::empty(), s.drop_first())
    } else {
        tokens_from(cur.push(s[0]), s.drop_first())
    }
}

/// The tokens of `s`: its maximal runs of non-whitespace characters, in order.
pub open spec fn tokens(s: Seq<char>) -> Seq<Seq<char>> {
    tokens_from(Seq::empty(), s)
}

/// Whether `t` can be a token: it is not empty and holds no whitespace.
pub open spec fn is_token(t: Seq<char>) -> bool {
    t.len() > 0 && forall|i: int| 0 <= i < t.len() ==> !white_space(#[trigger] t[i])
}

/// Whether every character of `s` is whitespace.
pub open spec fn all_white_space(s: Seq<char>) -> bool {
    forall|i: int| 0 <= i < s.len() ==> white_space(#[trigger] s[i])
}

proof fn lemma_skip_white_space(w: Seq<char>, b: Seq<char>)
    requires
        all_white_space(w),
    ensures
        tokens_from(Seq::empty(), w + b) == tokens_from(Seq::empty(), b),
    decreases w.len(),
{
    if w.len() == 0 {
        assert(w + b == b);
    } else {
        let s = w + b;
        assert(s[0] == w[0]);
        assert(s.drop_first() == w.drop_first() + b);
        assert(all_white_space(w.drop_first())) by {
            assert forall|i: int| 0 <= i < w.drop_first().len() implies white_space(
                #[trigger] w.drop_first()[i],
            ) by {
                assert(w.drop_first()[i] == w[i + 1]);
            }
        }
        lemma_skip_white_space(w.drop_first(), b);
        assert(flush(Seq::<char>::empty()) + tokens_from(Seq::empty(), b) == tokens_from(Seq::empty(), b));
    }
}

proof fn lemma_insert_white_space(cur: Seq<char>, a: Seq<char>, w: Seq<char>, b: Seq<char>)
    requires
        all_white_space(w),
        w.len() > 0,
        (a.len() > 0 && white_space(a.last())) || (cur.len() == 0 && a.len() == 0) || b.len() == 0
            || white_space(b[0]),
    ensures
        tokens_from(cur, a + w + b) == tokens_from(cur, a + b),
    decreases a.len(),
{
    if a.len() == 0 {
        assert(a + w + b == w + b);
        assert(a + b == b);
        let s = w + b;
        assert(s[0] == w[0]);
        assert(s.drop_first() == w.drop_first() + b);
        assert(all_white_space(w.drop_first())) by {
            assert forall|i: int| 0 <= i < w.drop_first().len() implies white_space(
                #[trigger] w.drop_first()[i],
            ) by {
                assert(w.drop_first()[i] == w[i + 1]);
            }
        }
        lemma_skip_white_space(w.drop_first(), b);
        let e = Seq::<char>::empty();
        assert(tokens_from(cur, w + b) == flush(cur) + tokens_from(e, b));
        if b.len() > 0 && white_space(b[0]) {
            let t = tokens_from(e, b.drop_first());
            assert(tokens_from(e, b) == flush(e) + t);
            assert(flush(e) + t == t);
            assert(tokens_from(cur, b) == flush(cur) + t);
        } else if b.len() == 0 {
            assert(flush(cur) + flush(e) == flush(cur));
        } else {
            assert(cur.len() == 0);
            assert(flush(cur) + tokens_from(e, b) == tokens_from(e, b));
            assert(cur == e);
        }
    } else {
        let s1 = a + w + b;
        let s2 = a + b;
        assert(s1[0] == a[0]);
        assert(s2[0] == a[0]);
        assert(s1.drop_first() == a.drop_first() + w + b);
        assert(s2.drop_first() == a.drop_first() + b);
        if a.len() > 1 {
            assert(a.drop_first().last() == a.last());
        }
        if white_space(a[0]) {
            lemma_insert_white_space(Seq::empty(), a.drop_first(), w, b);
        } else {
            lemma_insert_white_space(cur.push(a[0]), a.drop_first(), w, b);
        }
    }
}

/// Inserting a non-empty run of whitespace next to whitespace, or at either end
/// of the text, leaves the tokens unchanged.
pub proof fn lemma_tokens_insert_white_space(a: Seq<char>, w: Seq<char>, b: Seq<char>)
    requires
        all_white_space(w),
        w.len() > 0,
        a.len() == 0 || b.len() == 0 || white_space(a.last()) || white_space(b[0]),
    ensures
        tokens(a + w + b) == tokens(a + b),
{
    lemma_insert_white_space(Seq::empty(), a, w, b);
}

/// A scan that starts from a whitespace-free partial token yields only
/// non-empty, whitespace-free tokens.
pub proof fn lemma_tokens_are_tokens(cur: Seq<char>, s: Seq<char>)
    requires
        forall|i: int| 0 <= i < cur.len() ==> !white_space(#[trigger] cur[i]),
    ensures
        forall|j: int| 0 <= j < tokens_from(cur, s).len() ==> is_token(#[trigger] tokens_from(cur, s)[j]),
    decreases s.len(),
{
    let e = Seq::<char>::empty();
    if cur.len() > 0 {
        assert(flush(cur)[0] == cur);
    }
    if s.len() == 0 {
        assert(tokens_from(cur, s) == flush(cur));
    } else if white_space(s[0]) {
        lemma_tokens_are_tokens(e, s.drop_first());
        let t = tokens_from(e, s.drop_first());
        assert(tokens_from(cur, s) == flush(cur) + t);
        assert forall|j: int| 0 <= j < (flush(cur) + t).len() implies is_token(#[trigger] (flush(cur) + t)[j]) by {
            if j >= flush(cur).len() {
                assert((flush(cur) + t)[j] == t[j - flush(cur).len()]);
            } else {
                assert((flush(cur) + t)[j] == cur);
            }
        }
    } else {
        let c2 = cur.push(s[0]);
        assert forall|i: int| 0 <= i < c2.len() implies !white_space(#[trigger] c2[i]) by {
            if i < cur.len() {
                assert(c2[i] == cur[i]);
            }
        }
        lemma_tokens_are_tokens(c2, s.drop_first());
        assert(tokens_from(cur, s) == tokens_from(c2, s.drop_first()));
    }
}

/// Relies on `String`'s `FromIterator<&char>`: the string of the given characters, in order.
#[verifier::external_body]
fn string_from_chars(chars: &Vec<char>) -> (r: String)
    ensures
        r@ == chars@,
{
    chars.iter().collect()
}

/// Splits `text` into its tokens.
pub fn tokenize(text: &str) -> (r: Vec<String>)
    ensures
        r.deep_view() == tokens(text@),
        forall|i: int| 0 <= i < r.len() ==> is_token(#[trigger] r[i]@),
{
    let mut toks: Vec<String> = Vec::new();
    let mut cur: Vec<char> = Vec::new();
    proof {
        assert(text@.skip(0) == text@);
        assert(toks.deep_view() == Seq::<Seq<char>>::empty());
        assert(cur@ == Seq::<char>::empty());
        assert(Seq::<Seq<char>>::empty() + tokens(text@) == tokens(text@));
    }
    for c in it: text.chars()
        invariant
            it.seq() == text@,
            tokens(text@) == toks.deep_view() + tokens_from(cur@, text@.skip(it.index() as int)),
    {
        proof {
            let rest = text@.skip(it.index() as int);
            assert(rest[0] == c);
            assert(rest.drop_first() == text@.skip(it.index() + 1));
        }
        let ghost old_toks = toks.deep_view();
        let ghost old_cur = cur@;
        let ghost rest = text@.skip(it.index() + 1);
        if is_white_space(c) {
            if cur.len() > 0 {
                let tok = string_from_chars(&cur);
                assert(tok.deep_view() == cur@);
                toks.push(tok);
                proof {
                    assert(toks.deep_view() =~= old_toks.push(old_cur));
                }
            } else {
                assert(toks.deep_view() + flush(old_cur) == toks.deep_view());
            }
            cur = Vec::new();
            proof {
                assert(toks.deep_view() == old_toks + flush(old_cur));
                assert(flush(cur@) + tokens_from(cur@, rest) == tokens_from(cur@, rest)) by {
                    assert(cur@ == Seq::<char>::empty());
                }
                assert(old_toks + (flush(old_cur) + tokens_from(Seq::empty(), rest))
                    == old_toks + flush(old_cur) + tokens_from(Seq::empty(), rest));
            }
        } else {
            cur.push(c);
        }
    }
    proof {
        assert(text@.skip(text@.len() as int) == Seq::<char>::empty());
    }
    if cur.len() > 0 {
        let ghost old_toks = toks.deep_view();
        let ghost old_cur = cur@;
        let tok = string_from_chars(&cur);
        assert(tok.deep_view() == cur@);
        toks.push(tok);
        proof {
            assert(toks.deep_view() =~= old_toks.push(old_cur));
        }
    } else {
        assert(toks.deep_view() + flush(cur@) == toks.deep_view());
    }
    proof {
        lemma_tokens_are_tokens(Seq::empty(), text@);
        assert(toks.deep_view() == tokens(text@));
        assert forall|i: int| 0 <= i < toks.len() implies is_token(#[trigger] toks[i]@) by {
            assert(toks[i]@ == toks.deep_view()[i]);
        }
    }
    toks
}

} // verus!
