//! Local narrowing of an active completion set.
//!
//! Candidates are suffixes relative to the current buffer text. They are
//! requested from the executor once; every later keystroke narrows the set
//! locally, with no further executor call.

use vstd::prelude::*;
use vstd::string::StrSliceExecFns;

verus! {

/// Whether candidate `t` survives typing `c`: it must begin with `c`.
pub open spec fn survives(t: Seq<char>, c: char) -> bool {
    t.len() > 0 && t[0] == c
}

/// The candidates that survive typing `c`, each trimmed of that leading
/// character, in their original order.
pub open spec fn narrowed(cands: Seq<Seq<char>>, c: char) -> Seq<Seq<char>> {
    cands.filter(|t: Seq<char>| survives(t, c)).map_values(|t: Seq<char>| t.drop_first())
}

/// Narrowing an empty set yields an empty set, so typing against an
/// exhausted completion set keeps filtering it without fault.
pub proof fn lemma_narrowed_empty(c: char)
    ensures
        narrowed(Seq::<Seq<char>>::empty(), c) == Seq::<Seq<char>>::empty(),
{
    reveal(Seq::filter);
    assert(narrowed(Seq::<Seq<char>>::empty(), c) =~= Seq::<Seq<char>>::empty());
}

/// The surviving candidates after `c` was typed: those that start with `c`,
/// each with that leading character dropped.
pub fn narrow_candidates(cands: &Vec<String>, c: char) -> (r: Vec<String>)
    ensures
        r.deep_view() == narrowed(cands.deep_view(), c),
{
    let ghost pred = |t: Seq<char>| survives(t, c);
    let ghost trim = |t: Seq<char>| t.drop_first();
    let mut r: Vec<String> = Vec::new();
    proof {
        reveal(Seq::filter);
        assert(r.deep_view() =~= narrowed(cands.deep_view().take(0), c));
    }
    let n = cands.len();
    let mut i: usize = 0;
    while i < n
        invariant
            n == cands@.len(),
            i <= n,
            pred == (|t: Seq<char>| survives(t, c)),
            trim == (|t: Seq<char>| t.drop_first()),
            r.deep_view() == narrowed(cands.deep_view().take(i as int), c),
        decreases n - i,
    {
        let cand: &String = &cands[i];
        let len = cand.as_str().unicode_len();
        if len > 0 && cand.as_str().get_char(0) == c {
            let rest = cand.as_str().substring_char(1, len).to_owned();
            proof {
                assert(rest@ =~= cand@.drop_first());
            }
            r.push(rest);
        }
        proof {
            reveal(Seq::filter);
            let pre = cands.deep_view().take(i + 1);
            assert(pre.drop_last() =~= cands.deep_view().take(i as int));
            assert(pre.last() == cand@);
            let base = cands.deep_view().take(i as int).filter(pred);
            if survives(cand@, c) {
                assert(pre.filter(pred) == base.push(cand@));
                assert(base.push(cand@).map_values(trim) =~= base.map_values(trim).push(
                    cand@.drop_first(),
                ));
            }
            assert(r.deep_view() =~= narrowed(pre, c));
        }
        i = i + 1;
    }
    proof {
        assert(cands.deep_view().take(n as int) =~= cands.deep_view());
    }
    r
}

} // verus!
