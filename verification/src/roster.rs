use std::collections::VecDeque;

use vstd::arithmetic::div_mod::{
    lemma_fundamental_div_mod, lemma_fundamental_div_mod_converse_div,
    lemma_fundamental_div_mod_converse_mod,
};
use vstd::prelude::*;

use crate::error::Error;

verus! {

/// The views of a queue of voice names.
pub open spec fn voice_views(s: Seq<String>) -> Seq<Seq<char>> {
    s.map_values(|v: String| v@)
}

/// The voice name the j-th session of a run speaks with, over the roster the
/// run started with: the roster is walked round-robin.
pub open spec fn used_voice(r0: Seq<Seq<char>>, j: nat) -> Seq<char>
    recommends
        r0.len() >= 1,
{
    r0[(j as int) % (r0.len() as int)]
}

/// The roster after j single rotations of the queue.
pub open spec fn rotated(r0: Seq<Seq<char>>, j: nat) -> Seq<Seq<char>>
    recommends
        r0.len() >= 1,
{
    Seq::new(r0.len(), |i: int| r0[(i + j) % (r0.len() as int)])
}

/// How many of the first k sessions use the voice at roster slot i.
pub open spec fn slot_uses(n: int, k: int, i: int) -> int
    decreases k,
{
    if k <= 0 {
        0
    } else {
        slot_uses(n, k - 1, i) + if (k - 1) % n == i {
            1int
        } else {
            0
        }
    }
}

/// Round-robin fairness: over a roster of n voices, after k sessions every
/// slot has been used either the floor or the ceiling of k/n times, and
/// exactly k/n times when n divides k.
pub proof fn lemma_rotation_fairness(n: int, k: int, i: int)
    requires
        n >= 1,
        k >= 0,
        0 <= i < n,
    ensures
        slot_uses(n, k, i) == k / n + if i < k % n {
            1int
        } else {
            0
        },
        k / n <= slot_uses(n, k, i) <= k / n + 1,
        k % n == 0 ==> slot_uses(n, k, i) == k / n,
    decreases k,
{
    if k == 0 {
        assert(0 == 0 * n + 0);
        lemma_fundamental_div_mod_converse_div(0, n, 0, 0);
        lemma_fundamental_div_mod_converse_mod(0, n, 0, 0);
    } else {
        lemma_rotation_fairness(n, k - 1, i);
        let q = (k - 1) / n;
        let r = (k - 1) % n;
        lemma_fundamental_div_mod(k - 1, n);
        assert(k - 1 == n * q + r);
        if r < n - 1 {
            assert(k == q * n + (r + 1));
            lemma_fundamental_div_mod_converse_div(k, n, q, r + 1);
            lemma_fundamental_div_mod_converse_mod(k, n, q, r + 1);
        } else {
            assert(k == (q + 1) * n + 0) by (nonlinear_arith)
                requires
                    k - 1 == n * q + r,
                    r == n - 1,
            ;
            lemma_fundamental_div_mod_converse_div(k, n, q + 1, 0);
            lemma_fundamental_div_mod_converse_mod(k, n, q + 1, 0);
        }
    }
}

/// One rotation takes the head to the tail and shifts the rest forward.
pub proof fn lemma_rotated_step(r0: Seq<Seq<char>>, j: nat)
    requires
        r0.len() >= 1,
    ensures
        rotated(r0, j + 1) == rotated(r0, j).subrange(1, r0.len() as int).push(
            rotated(r0, j)[0],
        ),
{
    let n = r0.len() as int;
    let a = rotated(r0, j + 1);
    let b = rotated(r0, j).subrange(1, n).push(rotated(r0, j)[0]);
    assert forall|i: int| 0 <= i < n implies a[i] == b[i] by {
        if i < n - 1 {
            assert(b[i] == rotated(r0, j)[i + 1]);
            assert(a[i] == r0[(i + j + 1) % n]);
            assert(b[i] == r0[(i + 1 + j) % n]);
        } else {
            assert(b[i] == rotated(r0, j)[0]);
            assert(b[i] == r0[(j as int) % n]);
            let v = (j as int) % n;
            let q = (j as int) / n;
            lemma_fundamental_div_mod(j as int, n);
            assert(j as int + n == (q + 1) * n + v) by (nonlinear_arith)
                requires
                    j as int == n * q + v,
            ;
            lemma_fundamental_div_mod_converse_mod(j as int + n, n, q + 1, v);
            assert(a[i] == r0[(n - 1 + j + 1) % n]);
            assert((n - 1 + j + 1) % n == (j as int + n) % n);
        }
    }
    assert(a =~= b);
}

/// The first rotation starts the round-robin walk at the head of the roster.
pub proof fn lemma_rotated_zero(r0: Seq<Seq<char>>)
    requires
        r0.len() >= 1,
    ensures
        rotated(r0, 0) == r0,
{
    let n = r0.len() as int;
    assert forall|i: int| 0 <= i < n implies rotated(r0, 0)[i] == r0[i] by {
        assert(i == 0 * n + i);
        lemma_fundamental_div_mod_converse_mod(i, n, 0, i);
    }
    assert(rotated(r0, 0) =~= r0);
}

/// Pop the front voice and requeue it at the back. Fails when the roster is
/// empty.
pub fn rotate_voices(voices: &mut VecDeque<String>) -> (r: Result<String, Error>)
    ensures
        match r {
            Ok(v) => {
                &&& old(voices)@.len() >= 1
                &&& v == old(voices)@[0]
                &&& final (voices)@.len() == old(voices)@.len()
                &&& voice_views(final (voices)@) == voice_views(old(voices)@).subrange(
                    1,
                    old(voices)@.len() as int,
                ).push(old(voices)@[0]@)
            },
            Err(e) => {
                &&& e == Error::NoVoiceProvided
                &&& old(voices)@.len() == 0
                &&& final (voices)@ == old(voices)@
            },
        },
{
    match voices.pop_front() {
        None => Err(Error::NoVoiceProvided),
        Some(v) => {
            let copy = v.clone();
            voices.push_back(copy);
            proof {
                assert(voice_views(final (voices)@) =~= voice_views(old(voices)@).subrange(
                    1,
                    old(voices)@.len() as int,
                ).push(old(voices)@[0]@));
            }
            Ok(v)
        },
    }
}

} // verus!
