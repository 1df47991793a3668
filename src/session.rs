use vstd::prelude::*;

verus! {

/// Stands in the transcript for a target character that the user jumped over
/// by skipping the rest of a word. No key press produces it.
pub const SKIP_MARKER: char = '\0';

/// The character that the input layer hands over for the backspace key.
pub const BACKSPACE: char = '\x08';

/// How one typed position compares with the target text.
#[derive(PartialEq, Eq, Structural, Clone, Copy, Debug)]
pub enum CharClass {
    Correct,
    Incorrect,
    Skipped,
}

/// Index of the first space of `t` at or after `i`; `t.len()` when there is none.
pub open spec fn space_from(t: Seq<char>, i: int) -> int
    decreases t.len() - i,
{
    if i < 0 || i >= t.len() {
        t.len() as int
    } else if t[i] == ' ' {
        i
    } else {
        space_from(t, i + 1)
    }
}

/// Number of skip markers that end `m`.
pub open spec fn trailing_skips(m: Seq<char>) -> nat
    decreases m.len(),
{
    if m.len() > 0 && m.last() == SKIP_MARKER {
        trailing_skips(m.drop_last()) + 1
    } else {
        0
    }
}

/// `n` skip markers.
pub open spec fn skip_run(n: int) -> Seq<char> {
    Seq::new(n as nat, |_k: int| SKIP_MARKER)
}

/// A space typed after transcript `m` abandons a word that was begun and not
/// finished, and a later space exists to land after.
pub open spec fn space_skips(t: Seq<char>, m: Seq<char>) -> bool {
    let i = m.len() as int;
    &&& i < t.len()
    &&& t[i] != ' '
    &&& i > 0
    &&& t[i - 1] != ' '
    &&& space_from(t, i) < t.len()
}

/// The transcript after key `c` is applied to transcript `m` against target `t`.
pub open spec fn after_key(t: Seq<char>, m: Seq<char>, c: char) -> Seq<char> {
    let i = m.len() as int;
    if c == BACKSPACE {
        if m.len() == 0 {
            m
        } else if m.last() == SKIP_MARKER {
            m.take(m.len() - trailing_skips(m))
        } else {
            m.drop_last()
        }
    } else if c == ' ' {
        if i < t.len() && t[i] == ' ' {
            m.push(' ')
        } else if space_skips(t, m) {
            m + skip_run(space_from(t, i) + 1 - i)
        } else {
            m
        }
    } else if c != SKIP_MARKER && i < t.len() {
        m.push(c)
    } else {
        m
    }
}

/// The transcript after the keys of `keys` are applied in order, from `m`.
pub open spec fn replay(t: Seq<char>, m: Seq<char>, keys: Seq<char>) -> Seq<char>
    decreases keys.len(),
{
    if keys.len() == 0 {
        m
    } else {
        after_key(t, replay(t, m, keys.drop_last()), keys.last())
    }
}

/// The class of position `i` of transcript `m` against target `t`.
pub open spec fn class_at(t: Seq<char>, m: Seq<char>, i: int) -> CharClass {
    if m[i] == SKIP_MARKER {
        CharClass::Skipped
    } else if m[i] == t[i] {
        CharClass::Correct
    } else {
        CharClass::Incorrect
    }
}

pub proof fn lemma_trailing_skips_bound(m: Seq<char>)
    ensures
        trailing_skips(m) <= m.len(),
        trailing_skips(m) > 0 ==> m.last() == SKIP_MARKER,
    decreases m.len(),
{
    if m.len() > 0 && m.last() == SKIP_MARKER {
        lemma_trailing_skips_bound(m.drop_last());
    }
}

/// Removes the skip markers that end `typed`, as far back as they reach.
fn pop_skipped_run(typed: &mut Vec<char>)
    ensures
        final(typed)@ == old(typed)@.take(old(typed)@.len() - trailing_skips(old(typed)@)),
{
    proof {
        lemma_trailing_skips_bound(typed@);
    }
    while typed.len() > 0 && typed[typed.len() - 1] == SKIP_MARKER
        invariant
            typed@.take(typed@.len() - trailing_skips(typed@)) == old(typed)@.take(
                old(typed)@.len() - trailing_skips(old(typed)@),
            ),
            trailing_skips(typed@) <= typed@.len(),
        decreases typed.len(),
    {
        let ghost before = typed@;
        typed.pop();
        proof {
            lemma_trailing_skips_bound(typed@);
            assert(before.drop_last() == typed@);
            assert(typed@.take(typed@.len() - trailing_skips(typed@)) =~= before.take(
                before.len() - trailing_skips(before),
            ));
        }
    }
    proof {
        assert(typed@.take(typed@.len() as int) =~= typed@);
    }
}

/// Index of the first space of `target` at or after `from`, or its length.
fn find_space(target: &Vec<char>, from: usize) -> (s: usize)
    requires
        from <= target.len(),
    ensures
        s == space_from(target@, from as int),
        from <= s <= target.len(),
{
    let mut s = from;
    while s < target.len() && target[s] != ' '
        invariant
            from <= s <= target.len(),
            space_from(target@, from as int) == space_from(target@, s as int),
        decreases target.len() - s,
    {
        s = s + 1;
    }
    s
}

/// Applies one key press to the transcript `typed` of a session whose target
/// is `target`: a backspace, a space (which may skip the rest of a word), or
/// a typed character. Whatever cannot apply leaves `typed` as it was.
pub fn apply_key(target: &Vec<char>, typed: &mut Vec<char>, c: char)
    requires
        old(typed).len() <= target.len(),
    ensures
        final(typed)@ == after_key(target@, old(typed)@, c),
        final(typed).len() <= target.len(),
{
    let i = typed.len();
    if c == BACKSPACE {
        if i > 0 {
            if typed[i - 1] == SKIP_MARKER {
                pop_skipped_run(typed);
                proof {
                    lemma_trailing_skips_bound(old(typed)@);
                }
            } else {
                typed.pop();
            }
        }
    } else if c == ' ' {
        if i < target.len() {
            if target[i] == ' ' {
                typed.push(' ');
            } else if i > 0 && target[i - 1] != ' ' {
                let s = find_space(target, i);
                if s < target.len() {
                    while typed.len() <= s
                        invariant
                            i <= typed.len() <= s + 1,
                            s < target.len(),
                            typed@ == old(typed)@ + skip_run(typed.len() - i),
                        decreases s + 1 - typed.len(),
                    {
                        typed.push(SKIP_MARKER);
                        assert(typed@ =~= old(typed)@ + skip_run(typed.len() - i));
                    }
                }
            }
        }
    } else if c != SKIP_MARKER && i < target.len() {
        typed.push(c);
    }
}

} // verus!
