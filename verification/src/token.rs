//! Token minting. Ticket paths and upload keys are produced from a template
//! holding literal text and the placeholders `{number}`, `{word}` and
//! `{uuid}`; each occurrence is replaced left-to-right by an independent
//! draw: a decimal below one hundred, a word from the configured word list,
//! or a fresh version-4 UUID.

use vstd::prelude::*;
use vstd::string::StringExecFns;
use crate::text::{match_at, spec_match_at, spec_decimal, decimal_string};

verus! {

pub open spec fn number_pat() -> Seq<char> {
    seq!['{', 'n', 'u', 'm', 'b', 'e', 'r', '}']
}

pub open spec fn word_pat() -> Seq<char> {
    seq!['{', 'w', 'o', 'r', 'd', '}']
}

pub open spec fn uuid_pat() -> Seq<char> {
    seq!['{', 'u', 'u', 'i', 'd', '}']
}

/// A valid `{number}` draw: the decimal rendering of some value below 100.
pub open spec fn spec_is_number_draw(d: Seq<char>) -> bool {
    exists|n: nat| n < 100 && d == spec_decimal(n)
}

/// Characters a canonical hyphenated UUID is made of.
pub open spec fn spec_is_uuid_char(c: char) -> bool {
    ('0' <= c && c <= '9') || ('a' <= c && c <= 'f') || c == '-'
}

/// A valid `{uuid}` draw: 36 characters of lowercase hex and hyphens.
pub open spec fn spec_is_uuid_draw(d: Seq<char>) -> bool {
    d.len() == 36 && (forall|j: int| 0 <= j < 36 ==> spec_is_uuid_char(d[j]))
}

/// The view of a word list.
pub open spec fn spec_words_view(words: Seq<String>) -> Seq<Seq<char>> {
    words.map_values(|w: String| w@)
}

/// Whether a template holds a `{word}` placeholder, scanning left to right;
/// at each position the first placeholder to match wins.
pub open spec fn spec_has_word_placeholder(t: Seq<char>) -> bool
    decreases t.len(),
{
    if t.len() == 0 {
        false
    } else if spec_match_at(t, 0, number_pat()) {
        spec_has_word_placeholder(t.skip(8))
    } else if spec_match_at(t, 0, word_pat()) {
        true
    } else if spec_match_at(t, 0, uuid_pat()) {
        spec_has_word_placeholder(t.skip(6))
    } else {
        spec_has_word_placeholder(t.skip(1))
    }
}

/// Whether `draws` supplies one valid replacement for each placeholder of
/// the template, in order: a decimal below 100 for `{number}`, a listed word
/// for `{word}`, a canonical UUID rendering for `{uuid}`.
pub open spec fn spec_valid_draws(
    t: Seq<char>,
    draws: Seq<Seq<char>>,
    words: Seq<Seq<char>>,
) -> bool
    decreases t.len(),
{
    if t.len() == 0 {
        draws.len() == 0
    } else if spec_match_at(t, 0, number_pat()) {
        draws.len() > 0 && spec_is_number_draw(draws[0]) && spec_valid_draws(
            t.skip(8),
            draws.skip(1),
            words,
        )
    } else if spec_match_at(t, 0, word_pat()) {
        draws.len() > 0 && words.contains(draws[0]) && spec_valid_draws(
            t.skip(6),
            draws.skip(1),
            words,
        )
    } else if spec_match_at(t, 0, uuid_pat()) {
        draws.len() > 0 && spec_is_uuid_draw(draws[0]) && spec_valid_draws(
            t.skip(6),
            draws.skip(1),
            words,
        )
    } else {
        spec_valid_draws(t.skip(1), draws, words)
    }
}

/// The text a template renders to under a given sequence of draws: literal
/// characters stay, and each placeholder is replaced by the next draw.
pub open spec fn spec_render(t: Seq<char>, draws: Seq<Seq<char>>) -> Seq<char>
    decreases t.len(),
{
    if t.len() == 0 {
        Seq::empty()
    } else if spec_match_at(t, 0, number_pat()) {
        (if draws.len() > 0 {
            draws[0]
        } else {
            Seq::empty()
        }) + spec_render(t.skip(8), draws.skip(1))
    } else if spec_match_at(t, 0, word_pat()) {
        (if draws.len() > 0 {
            draws[0]
        } else {
            Seq::empty()
        }) + spec_render(t.skip(6), draws.skip(1))
    } else if spec_match_at(t, 0, uuid_pat()) {
        (if draws.len() > 0 {
            draws[0]
        } else {
            Seq::empty()
        }) + spec_render(t.skip(6), draws.skip(1))
    } else {
        seq![t[0]] + spec_render(t.skip(1), draws)
    }
}

/// A string is a minting of a template iff some valid draw sequence renders
/// the template to it.
pub open spec fn spec_minted(template: Seq<char>, out: Seq<char>, words: Seq<Seq<char>>) -> bool {
    exists|draws: Seq<Seq<char>>|
        spec_valid_draws(template, draws, words) && out == spec_render(template, draws)
}

proof fn lemma_skip_skip(s: Seq<char>, i: int, k: int)
    requires
        0 <= i,
        0 <= k,
        i + k <= s.len(),
    ensures
        s.skip(i).skip(k) == s.skip(i + k),
{
    assert(s.skip(i).skip(k) =~= s.skip(i + k));
}

proof fn lemma_match_shift(s: Seq<char>, i: int, pat: Seq<char>)
    requires
        0 <= i <= s.len(),
    ensures
        spec_match_at(s, i, pat) == spec_match_at(s.skip(i), 0, pat),
{
    if i + pat.len() <= s.len() {
        assert(s.skip(i).subrange(0, pat.len() as int) =~= s.subrange(i, i + pat.len() as int));
    }
}

/// Relies on `rand::random_range` over `0..n`: a uniform draw below `n`.
/// The call panics on an empty range, so `n` must be positive.
#[verifier::external_body]
fn random_below(n: usize) -> (r: usize)
    requires
        n >= 1,
    ensures
        r < n,
{
    rand::random_range(0..n)
}

/// Relies on `uuid::Uuid::new_v4` and its `Display` impl: a fresh version-4
/// UUID in canonical hyphenated form, 36 characters of lowercase hex digits
/// and hyphens.
#[verifier::external_body]
fn fresh_uuid() -> (r: String)
    ensures
        spec_is_uuid_draw(r@),
{
    uuid::Uuid::new_v4().to_string()
}

/// A fresh challenge value: one UUID draw.
pub fn generate_challenge() -> (r: String)
    ensures
        spec_is_uuid_draw(r@),
{
    fresh_uuid()
}

/// One `{number}` draw: a uniform value below 100, rendered in decimal.
fn draw_number() -> (r: String)
    ensures
        spec_is_number_draw(r@),
{
    let n = random_below(100);
    let out = decimal_string(n);
    proof {
        assert(n < 100 && out@ == spec_decimal(n as nat));
    }
    out
}

/// One `{word}` draw: a uniform pick from the word list.
fn draw_word(words: &Vec<String>) -> (r: String)
    requires
        words@.len() > 0,
    ensures
        spec_words_view(words@).contains(r@),
{
    let i = random_below(words.len());
    let w = words[i].clone();
    proof {
        assert(spec_words_view(words@)[i as int] == w@);
    }
    w
}

/// Renders the tail of a template beginning at character `i`, drawing a
/// fresh replacement for each placeholder.
fn render_from(s: &str, i: usize, words: &Vec<String>) -> (r: String)
    requires
        i <= s@.len(),
        spec_has_word_placeholder(s@.skip(i as int)) ==> words@.len() > 0,
    ensures
        spec_minted(s@.skip(i as int), r@, spec_words_view(words@)),
    decreases s@.len() - i,
{
    let ghost tail = s@.skip(i as int);
    let len = s.unicode_len();
    if i >= len {
        let out = String::new();
        proof {
            assert(tail.len() == 0);
            let draws = Seq::<Seq<char>>::empty();
            assert(spec_valid_draws(tail, draws, spec_words_view(words@)));
            assert(out@ == spec_render(tail, draws));
        }
        return out;
    }
    if match_at(s, i, "{number}") {
        proof {
            reveal_strlit("{number}");
            assert("{number}"@ =~= number_pat());
            lemma_match_shift(s@, i as int, number_pat());
            lemma_skip_skip(s@, i as int, 8);
            assert(spec_match_at(tail, 0, number_pat()));
        }
        let d = draw_number();
        let rest = render_from(s, i + 8, words);
        let r = d.concat(rest.as_str());
        proof {
            let rest_draws = choose|draws: Seq<Seq<char>>|
                #[trigger] spec_valid_draws(s@.skip(i + 8), draws, spec_words_view(words@))
                    && rest@ == spec_render(s@.skip(i + 8), draws);
            let draws = seq![d@] + rest_draws;
            assert(draws.skip(1) =~= rest_draws);
            assert(draws[0] == d@);
            assert(tail.skip(8) == s@.skip(i + 8));
            assert(spec_valid_draws(tail, draws, spec_words_view(words@)));
            assert(r@ == spec_render(tail, draws));
        }
        return r;
    }
    if match_at(s, i, "{word}") {
        proof {
            reveal_strlit("{word}");
            assert("{word}"@ =~= word_pat());
            lemma_match_shift(s@, i as int, word_pat());
            lemma_skip_skip(s@, i as int, 6);
            assert(spec_match_at(tail, 0, word_pat()));
            assert(spec_has_word_placeholder(tail));
        }
        let d = draw_word(words);
        let rest = render_from(s, i + 6, words);
        let r = d.concat(rest.as_str());
        proof {
            let rest_draws = choose|draws: Seq<Seq<char>>|
                #[trigger] spec_valid_draws(s@.skip(i + 6), draws, spec_words_view(words@))
                    && rest@ == spec_render(s@.skip(i + 6), draws);
            let draws = seq![d@] + rest_draws;
            assert(draws.skip(1) =~= rest_draws);
            assert(draws[0] == d@);
            assert(tail.skip(6) == s@.skip(i + 6));
            assert(spec_valid_draws(tail, draws, spec_words_view(words@)));
            assert(r@ == spec_render(tail, draws));
        }
        return r;
    }
    if match_at(s, i, "{uuid}") {
        proof {
            reveal_strlit("{number}");
            reveal_strlit("{word}");
            reveal_strlit("{uuid}");
            assert("{number}"@ =~= number_pat());
            assert("{word}"@ =~= word_pat());
            assert("{uuid}"@ =~= uuid_pat());
            lemma_match_shift(s@, i as int, number_pat());
            lemma_match_shift(s@, i as int, word_pat());
            lemma_match_shift(s@, i as int, uuid_pat());
            lemma_skip_skip(s@, i as int, 6);
            assert(spec_match_at(tail, 0, uuid_pat()));
        }
        let d = fresh_uuid();
        let rest = render_from(s, i + 6, words);
        let r = d.concat(rest.as_str());
        proof {
            let rest_draws = choose|draws: Seq<Seq<char>>|
                #[trigger] spec_valid_draws(s@.skip(i + 6), draws, spec_words_view(words@))
                    && rest@ == spec_render(s@.skip(i + 6), draws);
            let draws = seq![d@] + rest_draws;
            assert(draws.skip(1) =~= rest_draws);
            assert(draws[0] == d@);
            assert(tail.skip(6) == s@.skip(i + 6));
            assert(spec_valid_draws(tail, draws, spec_words_view(words@)));
            assert(r@ == spec_render(tail, draws));
        }
        return r;
    }
    proof {
        reveal_strlit("{number}");
        reveal_strlit("{word}");
        reveal_strlit("{uuid}");
        assert("{number}"@ =~= number_pat());
        assert("{word}"@ =~= word_pat());
        assert("{uuid}"@ =~= uuid_pat());
        lemma_match_shift(s@, i as int, number_pat());
        lemma_match_shift(s@, i as int, word_pat());
        lemma_match_shift(s@, i as int, uuid_pat());
        lemma_skip_skip(s@, i as int, 1);
        assert(!spec_match_at(tail, 0, number_pat()));
        assert(!spec_match_at(tail, 0, word_pat()));
        assert(!spec_match_at(tail, 0, uuid_pat()));
        assert(tail.len() > 0);
        assert(tail[0] == s@[i as int]);
        assert(tail.skip(1) == s@.skip(i + 1));
    }
    let c = s.substring_char(i, i + 1);
    let rest = render_from(s, i + 1, words);
    let r = c.to_owned().concat(rest.as_str());
    proof {
        let rest_draws = choose|draws: Seq<Seq<char>>|
            #[trigger] spec_valid_draws(s@.skip(i + 1), draws, spec_words_view(words@))
                && rest@ == spec_render(s@.skip(i + 1), draws);
        assert(c@ =~= seq![s@[i as int]]);
        assert(spec_valid_draws(tail, rest_draws, spec_words_view(words@)));
        assert(r@ == spec_render(tail, rest_draws));
    }
    r
}

/// Mints one token from a template: each placeholder is replaced by an
/// independent valid draw, left to right, and literal text is kept.
pub fn generate_token(format: &str, words: &Vec<String>) -> (r: String)
    requires
        spec_has_word_placeholder(format@) ==> words@.len() > 0,
    ensures
        spec_minted(format@, r@, spec_words_view(words@)),
{
    proof {
        assert(format@.skip(0) =~= format@);
    }
    let r = render_from(format, 0, words);
    r
}

} // verus!
