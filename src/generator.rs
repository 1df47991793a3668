use rand::Rng;
use vstd::prelude::*;

verus! {

/// Number of words in every generated test text.
pub const WORDS_PER_TEST: usize = 500;

/// How often a word equal to the one before it is drawn again before the
/// draw falls back to a scan of the pool.
pub const MAX_REDRAWS: usize = 32;

/// Why no test text can be made.
#[derive(PartialEq, Eq, Structural, Clone, Copy, Debug)]
pub enum ConfigurationError {
    /// The corpus holds no word to draw from.
    EmptyCorpus,
}

pub open spec fn is_digit(c: char) -> bool {
    '0' <= c && c <= '9'
}

/// The number that the decimal digits `s` spell.
pub open spec fn digits_value(s: Seq<char>) -> nat
    decreases s.len(),
{
    if s.len() == 0 {
        0
    } else {
        digits_value(s.drop_last()) * 10 + (s.last() as int - '0' as int) as nat
    }
}

/// The digits of a length label: the label without its `k` suffix.
pub open spec fn label_digits(s: Seq<char>) -> Seq<char> {
    if s.len() > 0 && s.last() == 'k' {
        s.drop_last()
    } else {
        s
    }
}

/// `s` has the shape `\d+k?`.
pub open spec fn label_form(s: Seq<char>) -> bool {
    &&& label_digits(s).len() > 0
    &&& forall|i: int| 0 <= i < label_digits(s).len() ==> is_digit(#[trigger] label_digits(s)[i])
}

/// The word count that a well-formed label names; `k` multiplies by 1000.
pub open spec fn label_count(s: Seq<char>) -> nat {
    if s.len() > 0 && s.last() == 'k' {
        digits_value(s.drop_last()) * 1000
    } else {
        digits_value(s)
    }
}

/// The label parses into a `usize`.
pub open spec fn label_ok(s: Seq<char>) -> bool {
    label_form(s) && label_count(s) <= usize::MAX
}

/// The words of a corpus, as character sequences.
pub open spec fn corpus_of(words: Seq<&str>) -> Seq<Seq<char>> {
    words.map_values(|w: &str| w@)
}

/// The highest index drawn from a corpus of `len` words for requested bound `r`.
pub open spec fn draw_bound(r: int, len: int) -> int {
    if r < len {
        r
    } else {
        len - 1
    }
}

/// The words at indices `ix` of `corpus`.
pub open spec fn picked(corpus: Seq<Seq<char>>, ix: Seq<int>) -> Seq<Seq<char>> {
    ix.map_values(|k: int| corpus[k])
}

/// The words of `ws` joined by single spaces.
pub open spec fn joined(ws: Seq<Seq<char>>) -> Seq<char>
    decreases ws.len(),
{
    if ws.len() == 0 {
        Seq::empty()
    } else if ws.len() == 1 {
        ws[0]
    } else {
        joined(ws.drop_last()).push(' ') + ws.last()
    }
}

/// Indices `0..=bound` of `corpus` hold two different words.
pub open spec fn has_alternative(corpus: Seq<Seq<char>>, bound: int) -> bool {
    exists|a: int, b: int|
        0 <= a <= bound && 0 <= b <= bound && #[trigger] corpus[a] != #[trigger] corpus[b]
}

/// `ix` is an admissible draw for a test: the right number of indices, each
/// in `0..=bound`, and no word equal to the one before it unless the pool
/// offers no other word.
pub open spec fn valid_draw(corpus: Seq<Seq<char>>, bound: int, ix: Seq<int>) -> bool {
    &&& ix.len() == WORDS_PER_TEST
    &&& forall|k: int| 0 <= k < ix.len() ==> 0 <= #[trigger] ix[k] <= bound
    &&& has_alternative(corpus, bound) ==> forall|k: int|
        1 <= k < ix.len() ==> corpus[#[trigger] ix[k]] != corpus[ix[k - 1]]
}

/// `t` is a test text drawn from `corpus` with highest index `bound`.
pub open spec fn is_test_text(corpus: Seq<Seq<char>>, bound: int, t: Seq<char>) -> bool {
    exists|ix: Seq<int>| valid_draw(corpus, bound, ix) && t == joined(picked(corpus, ix))
}

/// Relies on rand's `thread_rng` and `Rng::gen_range` over `0..=hi`: a value
/// of that range; the range is never empty, so the call does not panic.
#[verifier::external_body]
fn draw_index(hi: usize) -> (r: usize)
    ensures
        r <= hi,
{
    rand::thread_rng().gen_range(0..=hi)
}

/// The characters of `s`.
pub fn chars_of(s: &str) -> (v: Vec<char>)
    ensures
        v@ == s@,
{
    let mut v: Vec<char> = Vec::new();
    for c in it: s.chars()
        invariant
            v@ == it.seq().take(it.index() as int),
            it.seq() == s@,
    {
        v.push(c);
    }
    assert(v@ =~= s@);
    v
}

/// Whether `a` and `b` hold the same characters.
pub fn same_chars(a: &Vec<char>, b: &Vec<char>) -> (r: bool)
    ensures
        r == (a@ == b@),
{
    if a.len() != b.len() {
        return false;
    }
    let mut i: usize = 0;
    while i < a.len()
        invariant
            a.len() == b.len(),
            i <= a.len(),
            forall|k: int| 0 <= k < i ==> a@[k] == b@[k],
        decreases a.len() - i,
    {
        if a[i] != b[i] {
            return false;
        }
        i = i + 1;
    }
    assert(a@ =~= b@);
    true
}

proof fn lemma_digits_prefix(s: Seq<char>, j: int)
    requires
        0 <= j <= s.len(),
    ensures
        digits_value(s.take(j)) <= digits_value(s),
    decreases s.len(),
{
    if j < s.len() {
        lemma_digits_prefix(s.drop_last(), j);
        assert(s.drop_last().take(j) =~= s.take(j));
    } else {
        assert(s.take(j) =~= s);
    }
}

/// Parses a length label of the shape `\d+k?` (`"5k"` is 5000). `None` when
/// the label has another shape or its count does not fit in a `usize`.
pub fn parse_length_label(label: &str) -> (r: Option<usize>)
    ensures
        r is Some <==> label_ok(label@),
        r matches Some(v) ==> v == label_count(label@),
{
    let cs = chars_of(label);
    let mut n = cs.len();
    let thousands = n > 0 && cs[n - 1] == 'k';
    if thousands {
        n = n - 1;
    }
    let ghost d = label_digits(label@);
    assert(d =~= cs@.take(n as int));
    if n == 0 {
        return None;
    }
    let mut v: usize = 0;
    let mut i: usize = 0;
    while i < n
        invariant
            n == d.len(),
            n <= cs.len(),
            d == label_digits(label@),
            i <= n,
            d =~= cs@.take(n as int),
            forall|k: int| 0 <= k < i ==> is_digit(#[trigger] d[k]),
            v == digits_value(d.take(i as int)),
        decreases n - i,
    {
        let c = cs[i];
        assert(d[i as int] == c);
        if c < '0' || c > '9' {
            assert(!is_digit(label_digits(label@)[i as int]));
            return None;
        }
        let digit = (c as u32 - '0' as u32) as usize;
        assert(d.take(i + 1).drop_last() =~= d.take(i as int));
        assert(digits_value(d.take(i + 1)) == v * 10 + digit);
        match v.checked_mul(10) {
            Some(w) => match w.checked_add(digit) {
                Some(x) => {
                    v = x;
                },
                None => {
                    proof {
                        if label_form(label@) {
                            lemma_digits_prefix(d, i + 1);
                        }
                    }
                    return None;
                },
            },
            None => {
                proof {
                    if label_form(label@) {
                        lemma_digits_prefix(d, i + 1);
                    }
                }
                return None;
            },
        }
        i = i + 1;
    }
    assert(d.take(n as int) =~= d);
    if thousands {
        match v.checked_mul(1000) {
            Some(w) => Some(w),
            None => None,
        }
    } else {
        Some(v)
    }
}

/// Whether the words `a` and `b` are equal.
fn same_word(a: &str, b: &str) -> (r: bool)
    ensures
        r == (a@ == b@),
{
    let ca = chars_of(a);
    let cb = chars_of(b);
    same_chars(&ca, &cb)
}

/// Draws an index of `0..=bound` whose word differs from `words[prev]`,
/// whenever the pool holds such a word. Equal draws are redrawn a few times;
/// after that the first differing word of the pool is taken.
fn draw_next_index(words: &Vec<&str>, bound: usize, prev: usize) -> (i: usize)
    requires
        bound < words.len(),
        prev <= bound,
    ensures
        i <= bound,
        has_alternative(corpus_of(words@), bound as int) ==> words@[i as int]@
            != words@[prev as int]@,
{
    let ghost corpus = corpus_of(words@);
    let mut i = draw_index(bound);
    let mut tries: usize = 0;
    while tries < MAX_REDRAWS && same_word(words[i], words[prev])
        invariant
            i <= bound,
            prev <= bound,
            bound < words.len(),
        decreases MAX_REDRAWS - tries,
    {
        i = draw_index(bound);
        tries = tries + 1;
    }
    if !same_word(words[i], words[prev]) {
        return i;
    }
    let mut j: usize = 0;
    while j <= bound
        invariant
            bound < words.len(),
            prev <= bound,
            forall|k: int| 0 <= k < j ==> #[trigger] words@[k]@ == words@[prev as int]@,
        decreases bound + 1 - j,
    {
        if !same_word(words[j], words[prev]) {
            return j;
        }
        j = j + 1;
    }
    proof {
        assert forall|a: int, b: int|
            0 <= a <= bound && 0 <= b <= bound implies #[trigger] corpus[a] == #[trigger] corpus[b] by {
            assert(words@[a]@ == words@[prev as int]@);
            assert(words@[b]@ == words@[prev as int]@);
        }
    }
    i
}

/// Draws the word indices of one test from `0..=bound`: `WORDS_PER_TEST`
/// of them, with no word equal to the one before it whenever the pool holds
/// two different words.
pub fn draw_word_indices(words: &Vec<&str>, bound: usize) -> (ix: Vec<usize>)
    requires
        bound < words.len(),
    ensures
        valid_draw(corpus_of(words@), bound as int, ix@.map_values(|k: usize| k as int)),
{
    let ghost corpus = corpus_of(words@);
    let mut ix: Vec<usize> = Vec::new();
    while ix.len() < WORDS_PER_TEST
        invariant
            bound < words.len(),
            corpus == corpus_of(words@),
            ix.len() <= WORDS_PER_TEST,
            forall|k: int| 0 <= k < ix.len() ==> #[trigger] ix@[k] <= bound,
            has_alternative(corpus, bound as int) ==> forall|k: int|
                1 <= k < ix.len() ==> corpus[#[trigger] ix@[k] as int] != corpus[ix@[k - 1] as int],
        decreases WORDS_PER_TEST - ix.len(),
    {
        let n = ix.len();
        let i = if n == 0 {
            draw_index(bound)
        } else {
            draw_next_index(words, bound, ix[n - 1])
        };
        ix.push(i);
    }
    let ghost s = ix@.map_values(|k: usize| k as int);
    assert forall|k: int| 1 <= k < s.len() && has_alternative(corpus, bound as int) implies corpus[
        #[trigger] s[k]] != corpus[s[k - 1]] by {
        assert(corpus[ix@[k] as int] != corpus[ix@[k - 1] as int]);
    }
    ix
}

/// Appends the characters of `src` to `dst`.
fn push_all(dst: &mut Vec<char>, src: &Vec<char>)
    ensures
        final(dst)@ == old(dst)@ + src@,
{
    let mut i: usize = 0;
    while i < src.len()
        invariant
            i <= src.len(),
            dst@ == old(dst)@ + src@.take(i as int),
        decreases src.len() - i,
    {
        dst.push(src[i]);
        i = i + 1;
        assert(dst@ =~= old(dst)@ + src@.take(i as int));
    }
    assert(src@.take(i as int) =~= src@);
}

/// The text of the words at indices `ix`, joined by single spaces.
pub fn compose_text(words: &Vec<&str>, ix: &Vec<usize>) -> (t: Vec<char>)
    requires
        forall|k: int| 0 <= k < ix.len() ==> #[trigger] ix@[k] < words.len(),
    ensures
        t@ == joined(picked(corpus_of(words@), ix@.map_values(|k: usize| k as int))),
{
    let ghost corpus = corpus_of(words@);
    let ghost s = ix@.map_values(|k: usize| k as int);
    let mut t: Vec<char> = Vec::new();
    let mut n: usize = 0;
    while n < ix.len()
        invariant
            n <= ix.len(),
            forall|k: int| 0 <= k < ix.len() ==> #[trigger] ix@[k] < words.len(),
            s == ix@.map_values(|k: usize| k as int),
            corpus == corpus_of(words@),
            t@ == joined(picked(corpus, s.take(n as int))),
        decreases ix.len() - n,
    {
        let w = chars_of(words[ix[n]]);
        if n > 0 {
            t.push(' ');
        }
        push_all(&mut t, &w);
        proof {
            let p = picked(corpus, s.take(n + 1));
            assert(p.drop_last() =~= picked(corpus, s.take(n as int)));
            assert(p.last() == w@);
            if n == 0 {
                assert(t@ =~= joined(p));
            }
        }
        n = n + 1;
    }
    assert(s.take(n as int) =~= s);
    t
}

/// A test text of `WORDS_PER_TEST` words drawn at random from the first
/// `r + 1` words of `words` (all of them when `r` reaches past the end).
pub fn generate(words: &Vec<&str>, r: usize) -> (res: Result<Vec<char>, ConfigurationError>)
    ensures
        res is Err <==> words.len() == 0,
        res matches Ok(t) ==> is_test_text(
            corpus_of(words@),
            draw_bound(r as int, words.len() as int),
            t@,
        ),
{
    if words.len() == 0 {
        return Err(ConfigurationError::EmptyCorpus);
    }
    let bound = if r < words.len() {
        r
    } else {
        words.len() - 1
    };
    let ix = draw_word_indices(words, bound);
    let ghost s = ix@.map_values(|k: usize| k as int);
    assert forall|k: int| 0 <= k < ix.len() implies #[trigger] ix@[k] < words.len() by {
        assert(s[k] == ix@[k] as int);
    }
    let t = compose_text(words, &ix);
    assert(valid_draw(corpus_of(words@), bound as int, s) && t@ == joined(
        picked(corpus_of(words@), s),
    ));
    Ok(t)
}

} // verus!
