//! The round generator: draws a target and decoys from the configured
//! alphabet and shuffles them into display order.

use vstd::prelude::*;
use vstd::multiset::Multiset;
use crate::config::Config;
use crate::entropy::Entropy;

verus! {

broadcast use
    vstd::seq_lib::group_to_multiset_ensures,
    vstd::multiset::group_multiset_axioms,
    vstd::multiset::group_multiset_properties;

/// What every trial's contents satisfy: `k` candidates drawn from the
/// alphabet, the target among them, and, with filtered decoys, the target
/// among them exactly once.
pub open spec fn trial_contents_wf(cfg: Config, target: char, cand: Seq<char>) -> bool {
    &&& cand.len() == cfg.k as int
    &&& cand.contains(target)
    &&& (forall|i: int| 0 <= i < cand.len() ==> cfg.alphabet@.contains(#[trigger] cand[i]))
    &&& (cfg.filtered_decoys ==> cand.to_multiset().count(target) == 1)
}

/// Draws one symbol uniformly from the alphabet.
pub fn draw_symbol(entropy: &mut Entropy, alphabet: &Vec<char>) -> (c: char)
    requires
        alphabet@.len() >= 1,
    ensures
        alphabet@.contains(c),
{
    let i = entropy.pick_index(alphabet.len());
    let c = alphabet[i];
    proof {
        assert(alphabet@[i as int] == c);
    }
    c
}

/// Draws an alphabet symbol different from `avoid`.  A draw that hits
/// `avoid` is retried once; if that draw hits it too, the first alphabet
/// symbol different from `avoid` stands in, keeping generation total.
pub fn draw_decoy(entropy: &mut Entropy, alphabet: &Vec<char>, avoid: char) -> (c: char)
    requires
        alphabet@.len() >= 1,
        crate::config::has_two_symbols(alphabet@),
    ensures
        alphabet@.contains(c),
        c != avoid,
{
    let c = draw_symbol(entropy, alphabet);
    if c != avoid {
        return c;
    }
    let c2 = draw_symbol(entropy, alphabet);
    if c2 != avoid {
        return c2;
    }
    let mut idx: usize = 0;
    while idx < alphabet.len()
        invariant
            idx <= alphabet.len(),
            forall|t: int| 0 <= t < idx ==> alphabet@[t] == avoid,
        decreases alphabet@.len() - idx,
    {
        if alphabet[idx] != avoid {
            return alphabet[idx];
        }
        idx = idx + 1;
    }
    proof {
        let (i, j) = choose|i: int, j: int|
            0 <= i < alphabet@.len() && 0 <= j < alphabet@.len() && alphabet@[i] != alphabet@[j];
        assert(alphabet@[i] == avoid);
        assert(alphabet@[j] == avoid);
        assert(false);
    }
    alphabet[0]
}

/// Builds a fresh trial for the configuration: a target and `k - 1` decoys,
/// shuffled into display order.
pub fn generate_trial(entropy: &mut Entropy, cfg: &Config) -> (r: (char, Vec<char>))
    requires
        cfg.wf(),
    ensures
        trial_contents_wf(*cfg, r.0, r.1@),
{
    let target = draw_symbol(entropy, &cfg.alphabet);
    let mut cand: Vec<char> = Vec::new();
    cand.push(target);
    proof {
        assert(Seq::<char>::empty().push(target).to_multiset() =~= Multiset::<char>::empty().insert(
            target,
        ));
        assert(!Seq::<char>::empty().contains(target));
        assert(Seq::<char>::empty().to_multiset().count(target) == 0);
        assert(cand@.to_multiset().count(target) == 1);
    }
    let mut n: usize = 1;
    while n < cfg.k
        invariant
            cfg.wf(),
            1 <= n,
            n == cand@.len(),
            n <= cfg.k,
            cand@[0] == target,
            forall|i: int| 0 <= i < cand@.len() ==> cfg.alphabet@.contains(#[trigger] cand@[i]),
            cfg.filtered_decoys ==> cand@.to_multiset().count(target) == 1,
        decreases cfg.k - n,
    {
        let d = if cfg.filtered_decoys {
            draw_decoy(entropy, &cfg.alphabet, target)
        } else {
            draw_symbol(entropy, &cfg.alphabet)
        };
        proof {
            assert(cand@.push(d).to_multiset() =~= cand@.to_multiset().insert(d));
        }
        cand.push(d);
        n = n + 1;
    }
    let ghost before = cand@;
    entropy.shuffle_chars(&mut cand);
    proof {
        assert forall|i: int| 0 <= i < cand@.len() implies cfg.alphabet@.contains(
            #[trigger] cand@[i],
        ) by {
            let c = cand@[i];
            assert(cand@.contains(c));
            assert(cand@.to_multiset().count(c) > 0);
            assert(before.to_multiset().count(c) > 0);
            assert(before.contains(c));
            let w = choose|w: int| 0 <= w < before.len() && before[w] == c;
            assert(cfg.alphabet@.contains(before[w]));
        }
        assert(before.contains(target));
        assert(before.to_multiset().count(target) > 0);
        assert(cand@.to_multiset().count(target) > 0);
        assert(cand@.contains(target));
    }
    (target, cand)
}

} // verus!
