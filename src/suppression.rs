//! The suppression set: the key codes that are blocked, built once from the
//! user's tokens and only read afterwards.

use std::collections::HashSet;
use vstd::prelude::*;

use crate::registry::{lookup, upper_of, KeyRegistry};

verus! {

broadcast use vstd::std_specs::hash::group_hash_axioms;

/// The tokens as character sequences.
pub open spec fn tokens_view(tokens: Seq<String>) -> Seq<Seq<char>> {
    tokens.map_values(|t: String| t@)
}

/// The code that a token resolves to in a registry, if any.
pub open spec fn token_code(reg: Seq<(Seq<char>, i32)>, token: Seq<char>) -> Option<i32> {
    lookup(reg, upper_of(token))
}

/// The codes of all tokens that resolve.
pub open spec fn resolved_codes(reg: Seq<(Seq<char>, i32)>, tokens: Seq<Seq<char>>) -> Set<i32> {
    Set::new(
        |c: i32| exists|i: int| 0 <= i < tokens.len() && token_code(reg, #[trigger] tokens[i]) == Some(c),
    )
}

/// The positions of the tokens that do not resolve, in order.
pub open spec fn invalid_positions(reg: Seq<(Seq<char>, i32)>, tokens: Seq<Seq<char>>) -> Seq<int>
    decreases tokens.len(),
{
    if tokens.len() == 0 {
        Seq::empty()
    } else {
        let rest = invalid_positions(reg, tokens.drop_last());
        if token_code(reg, tokens.last()) is None {
            rest.push(tokens.len() - 1)
        } else {
            rest
        }
    }
}

/// The set of suppressed key codes.
pub struct SuppressionSet {
    codes: HashSet<i32>,
}

impl View for SuppressionSet {
    type V = Set<i32>;

    closed spec fn view(&self) -> Set<i32> {
        self.codes@
    }
}

/// The outcome of building a suppression set from tokens: the set, and the
/// positions of the tokens that named no key.
pub struct Resolution {
    pub set: SuppressionSet,
    pub invalid: Vec<usize>,
}

impl SuppressionSet {
    /// Whether `code` is suppressed.
    pub fn contains(&self, code: i32) -> (r: bool)
        ensures
            r == self@.contains(code),
    {
        self.codes.contains(&code)
    }

    /// Whether no code is suppressed.
    pub fn is_empty(&self) -> (r: bool)
        ensures
            r == (self@ == Set::<i32>::empty()),
    {
        let r = self.codes.is_empty();
        proof {
            if r {
                assert(self@ =~= Set::<i32>::empty());
            }
        }
        r
    }

    /// The number of suppressed codes.
    pub fn len(&self) -> (r: usize)
        ensures
            r == self@.len(),
    {
        self.codes.len()
    }

    /// Resolves each token in the registry; the codes of those that resolve
    /// make up the set, and the positions of the others are reported.
    pub fn build(reg: &KeyRegistry, tokens: &Vec<String>) -> (r: Resolution)
        ensures
            r.set@ == resolved_codes(reg@, tokens_view(tokens@)),
            r.invalid@.map_values(|p: usize| p as int) == invalid_positions(reg@, tokens_view(tokens@)),
    {
        let ghost tv = tokens_view(tokens@);
        let mut codes: HashSet<i32> = HashSet::new();
        let mut invalid: Vec<usize> = Vec::new();
        let mut i: usize = 0;
        while i < tokens.len()
            invariant
                i <= tokens@.len(),
                tv == tokens_view(tokens@),
                codes@ == resolved_codes(reg@, tv.take(i as int)),
                invalid@.map_values(|p: usize| p as int) == invalid_positions(reg@, tv.take(i as int)),
            decreases tokens@.len() - i,
        {
            let code = reg.resolve(tokens[i].as_str());
            let ghost before = tv.take(i as int);
            let ghost after = tv.take(i + 1);
            assert(after.drop_last() =~= before);
            assert(after.last() == tokens@[i as int]@);
            match code {
                Some(c) => {
                    codes.insert(c);
                    assert(codes@ =~= resolved_codes(reg@, after)) by {
                        assert forall|x: i32| codes@.contains(x) implies resolved_codes(reg@, after).contains(x) by {
                            if x != c {
                                let j = choose|j: int| 0 <= j < before.len() && token_code(reg@, #[trigger] before[j]) == Some(x);
                                assert(after[j] == before[j]);
                            } else {
                                assert(after[i as int] == tokens@[i as int]@);
                            }
                        }
                        assert forall|x: i32| resolved_codes(reg@, after).contains(x) implies codes@.contains(x) by {
                            let j = choose|j: int| 0 <= j < after.len() && token_code(reg@, #[trigger] after[j]) == Some(x);
                            if j < i {
                                assert(after[j] == before[j]);
                            }
                        }
                    }
                },
                None => {
                    invalid.push(i);
                    assert(invalid@.map_values(|p: usize| p as int) =~= invalid_positions(reg@, after));
                    assert(codes@ =~= resolved_codes(reg@, after)) by {
                        assert forall|x: i32| codes@.contains(x) implies resolved_codes(reg@, after).contains(x) by {
                            let j = choose|j: int| 0 <= j < before.len() && token_code(reg@, #[trigger] before[j]) == Some(x);
                            assert(after[j] == before[j]);
                        }
                        assert forall|x: i32| resolved_codes(reg@, after).contains(x) implies codes@.contains(x) by {
                            let j = choose|j: int| 0 <= j < after.len() && token_code(reg@, #[trigger] after[j]) == Some(x);
                            if j < i {
                                assert(after[j] == before[j]);
                            }
                        }
                    }
                },
            }
            i = i + 1;
        }
        assert(tv.take(i as int) =~= tv);
        Resolution { set: SuppressionSet { codes }, invalid }
    }
}

/// The positions reported as invalid are exactly those of the tokens that do
/// not resolve.
pub proof fn lemma_invalid_positions(reg: Seq<(Seq<char>, i32)>, tokens: Seq<Seq<char>>, k: int)
    requires
        0 <= k < tokens.len(),
    ensures
        invalid_positions(reg, tokens).contains(k) <==> token_code(reg, tokens[k]) is None,
    decreases tokens.len(),
{
    let rest = invalid_positions(reg, tokens.drop_last());
    lemma_invalid_positions_bound(reg, tokens.drop_last());
    if k < tokens.len() - 1 {
        lemma_invalid_positions(reg, tokens.drop_last(), k);
        assert(tokens.drop_last()[k] == tokens[k]);
        if token_code(reg, tokens.last()) is None {
            assert(rest.push(tokens.len() - 1).contains(k) ==> rest.contains(k)) by {
                if rest.push(tokens.len() - 1).contains(k) {
                    let j = choose|j: int| 0 <= j < rest.len() + 1 && #[trigger] rest.push(tokens.len() - 1)[j] == k;
                    assert(j < rest.len());
                }
            }
            assert(rest.contains(k) ==> rest.push(tokens.len() - 1).contains(k)) by {
                if rest.contains(k) {
                    let j = choose|j: int| 0 <= j < rest.len() && #[trigger] rest[j] == k;
                    assert(rest.push(tokens.len() - 1)[j] == k);
                }
            }
        }
    } else {
        if token_code(reg, tokens.last()) is None {
            assert(rest.push(tokens.len() - 1)[rest.len() as int] == k);
        }
    }
}

/// Every reported position lies before the end of the tokens.
pub proof fn lemma_invalid_positions_bound(reg: Seq<(Seq<char>, i32)>, tokens: Seq<Seq<char>>)
    ensures
        forall|j: int| 0 <= j < invalid_positions(reg, tokens).len() ==>
            0 <= #[trigger] invalid_positions(reg, tokens)[j] < tokens.len(),
    decreases tokens.len(),
{
    if tokens.len() > 0 {
        let rest = invalid_positions(reg, tokens.drop_last());
        lemma_invalid_positions_bound(reg, tokens.drop_last());
        assert forall|j: int| 0 <= j < invalid_positions(reg, tokens).len() implies
            0 <= #[trigger] invalid_positions(reg, tokens)[j] < tokens.len() by {
            if j < rest.len() {
                assert(invalid_positions(reg, tokens)[j] == rest[j]);
            }
        }
    }
}

/// A token that names no key is reported and adds no code, and every other
/// token of the same list still adds its own code.
pub proof fn lemma_invalid_token_skipped(reg: Seq<(Seq<char>, i32)>, tokens: Seq<Seq<char>>, k: int)
    requires
        0 <= k < tokens.len(),
        token_code(reg, tokens[k]) is None,
    ensures
        invalid_positions(reg, tokens).contains(k),
        resolved_codes(reg, tokens) == resolved_codes(reg, tokens.remove(k)),
        forall|j: int|
            0 <= j < tokens.len() && token_code(reg, tokens[j]) is Some ==> resolved_codes(
                reg,
                tokens,
            ).contains(token_code(reg, #[trigger] tokens[j])->0),
{
    lemma_invalid_positions(reg, tokens, k);
    let rm = tokens.remove(k);
    assert forall|c: i32| resolved_codes(reg, tokens).contains(c) implies resolved_codes(reg, rm).contains(c) by {
        let j = choose|j: int| 0 <= j < tokens.len() && token_code(reg, #[trigger] tokens[j]) == Some(c);
        if j < k {
            assert(rm[j] == tokens[j]);
        } else {
            assert(rm[j - 1] == tokens[j]);
        }
    }
    assert forall|c: i32| resolved_codes(reg, rm).contains(c) implies resolved_codes(reg, tokens).contains(c) by {
        let j = choose|j: int| 0 <= j < rm.len() && token_code(reg, #[trigger] rm[j]) == Some(c);
        if j < k {
            assert(rm[j] == tokens[j]);
        } else {
            assert(rm[j] == tokens[j + 1]);
        }
    }
    assert(resolved_codes(reg, tokens) =~= resolved_codes(reg, rm));
}

/// Repeating a token leaves the set of codes as it was.
pub proof fn lemma_duplicate_token(reg: Seq<(Seq<char>, i32)>, tokens: Seq<Seq<char>>, k: int)
    requires
        0 <= k < tokens.len(),
    ensures
        resolved_codes(reg, tokens.push(tokens[k])) == resolved_codes(reg, tokens),
{
    let dup = tokens.push(tokens[k]);
    assert forall|c: i32| resolved_codes(reg, dup).contains(c) implies resolved_codes(reg, tokens).contains(c) by {
        let j = choose|j: int| 0 <= j < dup.len() && token_code(reg, #[trigger] dup[j]) == Some(c);
        if j < tokens.len() {
            assert(dup[j] == tokens[j]);
        } else {
            assert(dup[j] == tokens[k]);
        }
    }
    assert forall|c: i32| resolved_codes(reg, tokens).contains(c) implies resolved_codes(reg, dup).contains(c) by {
        let j = choose|j: int| 0 <= j < tokens.len() && token_code(reg, #[trigger] tokens[j]) == Some(c);
        assert(dup[j] == tokens[j]);
    }
    assert(resolved_codes(reg, dup) =~= resolved_codes(reg, tokens));
}

} // verus!
