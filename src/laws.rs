use vstd::prelude::*;

use crate::options::{next_tab, prev_tab, tab_after_steps};
use crate::session::{
    after_key, class_at, lemma_trailing_skips_bound, replay, skip_run, space_from, space_skips,
    trailing_skips, CharClass, BACKSPACE, SKIP_MARKER,
};

verus! {

proof fn lemma_space_from_bound(t: Seq<char>, i: int)
    requires
        0 <= i <= t.len(),
    ensures
        i <= space_from(t, i) <= t.len(),
    decreases t.len() - i,
{
    if i < t.len() && t[i] != ' ' {
        lemma_space_from_bound(t, i + 1);
    }
}

/// One key press never takes the transcript past the end of the target.
pub proof fn lemma_key_within_target(t: Seq<char>, m: Seq<char>, c: char)
    requires
        m.len() <= t.len(),
    ensures
        after_key(t, m, c).len() <= t.len(),
{
    lemma_trailing_skips_bound(m);
    if c == ' ' && space_skips(t, m) {
        lemma_space_from_bound(t, m.len() as int);
    }
}

/// Whatever keys are pressed, in whatever order, the transcript stays no
/// longer than the target text, so the cursor (its length) stays in range.
pub proof fn lemma_replay_within_target(t: Seq<char>, m: Seq<char>, keys: Seq<char>)
    requires
        m.len() <= t.len(),
    ensures
        replay(t, m, keys).len() <= t.len(),
    decreases keys.len(),
{
    if keys.len() > 0 {
        lemma_replay_within_target(t, m, keys.drop_last());
        lemma_key_within_target(t, replay(t, m, keys.drop_last()), keys.last());
    }
}

proof fn lemma_trailing_skips_of_run(m: Seq<char>, k: int)
    requires
        k >= 0,
        m.len() == 0 || m.last() != SKIP_MARKER,
    ensures
        trailing_skips(m + skip_run(k)) == k,
    decreases k,
{
    if k == 0 {
        assert(m + skip_run(0) =~= m);
    } else {
        let s = m + skip_run(k);
        assert(s.drop_last() =~= m + skip_run(k - 1));
        lemma_trailing_skips_of_run(m, k - 1);
    }
}

/// A backspace right after a space that skipped the rest of a word removes
/// the whole skipped run at once: the transcript is what it was before the
/// space.
pub proof fn lemma_backspace_undoes_skip(t: Seq<char>, m: Seq<char>)
    requires
        space_skips(t, m),
        m.last() != SKIP_MARKER,
    ensures
        after_key(t, after_key(t, m, ' '), BACKSPACE) == m,
{
    let i = m.len() as int;
    lemma_space_from_bound(t, i);
    let k = space_from(t, i) + 1 - i;
    let m2 = m + skip_run(k);
    assert(after_key(t, m, ' ') == m2);
    lemma_trailing_skips_of_run(m, k);
    assert(m2.last() == SKIP_MARKER);
    assert(m2.take(m2.len() - k) =~= m);
}

/// Keys that the target text either shows at their position, or that are
/// printable characters other than a space.
pub open spec fn plain_typing(t: Seq<char>, keys: Seq<char>) -> bool {
    &&& keys.len() <= t.len()
    &&& forall|p: int|
        0 <= p < keys.len() ==> {
            &&& #[trigger] keys[p] != BACKSPACE
            &&& keys[p] != SKIP_MARKER
            &&& keys[p] == ' ' ==> t[p] == ' '
        }
}

/// Plain typing from an empty transcript records each key as it was pressed.
pub proof fn lemma_plain_typing_recorded(t: Seq<char>, keys: Seq<char>)
    requires
        plain_typing(t, keys),
    ensures
        replay(t, Seq::empty(), keys) == keys,
    decreases keys.len(),
{
    if keys.len() > 0 {
        let prev = keys.drop_last();
        assert(plain_typing(t, prev)) by {
            assert forall|p: int| 0 <= p < prev.len() implies {
                &&& #[trigger] prev[p] != BACKSPACE
                &&& prev[p] != SKIP_MARKER
                &&& prev[p] == ' ' ==> t[p] == ' '
            } by {
                assert(prev[p] == keys[p]);
            }
        }
        lemma_plain_typing_recorded(t, prev);
        let p = keys.len() - 1;
        assert(keys[p] != BACKSPACE);
        assert(prev.push(keys.last()) =~= keys);
    }
}

/// Typing the first `n` characters of the target exactly, key by key, gives
/// a transcript in which every position is correct (the target holds no
/// backspace and no skip marker there).
pub proof fn lemma_exact_typing_correct(t: Seq<char>, n: int)
    requires
        0 <= n <= t.len(),
        forall|k: int| 0 <= k < n ==> #[trigger] t[k] != BACKSPACE && t[k] != SKIP_MARKER,
    ensures
        replay(t, Seq::empty(), t.take(n)) == t.take(n),
        forall|i: int|
            0 <= i < n ==> class_at(t, #[trigger] t.take(n), i) == CharClass::Correct,
{
    let keys = t.take(n);
    assert(plain_typing(t, keys)) by {
        assert forall|p: int| 0 <= p < keys.len() implies {
            &&& #[trigger] keys[p] != BACKSPACE
            &&& keys[p] != SKIP_MARKER
            &&& keys[p] == ' ' ==> t[p] == ' '
        } by {
            assert(keys[p] == t[p]);
        }
    }
    lemma_plain_typing_recorded(t, keys);
}

/// Typing the first `n` characters of the target with one printable,
/// non-space character `c` in place of the target's at `j` gives a
/// transcript in which exactly position `j` is incorrect.
pub proof fn lemma_one_mismatch_incorrect(t: Seq<char>, n: int, j: int, c: char)
    requires
        0 <= j < n <= t.len(),
        forall|k: int| 0 <= k < n ==> #[trigger] t[k] != BACKSPACE && t[k] != SKIP_MARKER,
        c != t[j],
        c != ' ',
        c != BACKSPACE,
        c != SKIP_MARKER,
    ensures
        replay(t, Seq::empty(), t.take(n).update(j, c)) == t.take(n).update(j, c),
        class_at(t, t.take(n).update(j, c), j) == CharClass::Incorrect,
        forall|i: int|
            0 <= i < n && i != j ==> class_at(t, #[trigger] t.take(n).update(j, c), i)
                == CharClass::Correct,
{
    let keys = t.take(n).update(j, c);
    assert(plain_typing(t, keys)) by {
        assert forall|p: int| 0 <= p < keys.len() implies {
            &&& #[trigger] keys[p] != BACKSPACE
            &&& keys[p] != SKIP_MARKER
            &&& keys[p] == ' ' ==> t[p] == ' '
        } by {
            if p != j {
                assert(keys[p] == t[p]);
            }
        }
    }
    lemma_plain_typing_recorded(t, keys);
    assert forall|i: int| 0 <= i < n && i != j implies class_at(t, #[trigger] t.take(n).update(j, c), i)
        == CharClass::Correct by {
        assert(keys[i] == t[i]);
    }
}

/// `k` forward steps from `i` in a list of `n` options land on `(i + k) % n`.
pub proof fn lemma_tab_steps_mod(i: int, n: int, k: nat)
    requires
        0 <= i < n,
    ensures
        tab_after_steps(i, n, k) == (i + k) % n,
    decreases k,
{
    if k == 0 {
        vstd::arithmetic::div_mod::lemma_small_mod(i as nat, n as nat);
    } else {
        lemma_tab_steps_mod(i, n, (k - 1) as nat);
        let x = (i + k - 1) % n;
        vstd::arithmetic::div_mod::lemma_mod_bound(i + k - 1, n);
        vstd::arithmetic::div_mod::lemma_add_mod_noop(i + k - 1, 1, n);
        if n == 1 {
            vstd::arithmetic::div_mod::lemma_mod_bound(i + k, 1);
        } else {
            vstd::arithmetic::div_mod::lemma_small_mod(1, n as nat);
            if x + 1 < n {
                vstd::arithmetic::div_mod::lemma_small_mod((x + 1) as nat, n as nat);
            } else {
                vstd::arithmetic::div_mod::lemma_mod_self_0(n);
            }
        }
    }
}

/// Option cycling wraps around: `n` forward steps from any index of a list
/// of `n` options return to that index, and one step back from the first
/// index lands on the last.
pub proof fn lemma_tab_cycle_wraps(i: int, n: int)
    requires
        0 <= i < n,
    ensures
        tab_after_steps(i, n, n as nat) == i,
        prev_tab(0, n) == n - 1,
        next_tab(n - 1, n) == 0,
{
    lemma_tab_steps_mod(i, n, n as nat);
    vstd::arithmetic::div_mod::lemma_add_mod_noop(i, n, n);
    vstd::arithmetic::div_mod::lemma_mod_self_0(n);
    vstd::arithmetic::div_mod::lemma_small_mod(i as nat, n as nat);
}

} // verus!
