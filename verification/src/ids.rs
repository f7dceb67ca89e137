//! Widget identifiers: collision-resistant hashes derived from a label and a
//! stacked parent seed, so a widget's interaction state (focus, hover) can be
//! correlated across frames without retained widget objects.

use vstd::prelude::*;

verus! {

/// Modulus of the identifier space: identifiers are 32-bit values carried in
/// a `u64`.
pub open spec fn id_modulus() -> int {
    0x1_0000_0000
}

/// One step of the hash: fold the next character into the accumulator.
pub open spec fn id_step(h: int, c: char) -> int {
    (h * 1000003 + c as int) % id_modulus()
}

/// The identifier derived from a seed and a label, a pure function of the
/// two: identical (seed, label) pairs always yield the identical identifier.
pub open spec fn id_of(seed: int, label: Seq<char>) -> int
    decreases label.len(),
{
    if label.len() == 0 {
        seed
    } else {
        id_step(id_of(seed, label.drop_last()), label.last())
    }
}

/// A derived identifier always lies in the identifier space when its seed
/// does.
pub proof fn lemma_id_of_range(seed: int, label: Seq<char>)
    requires
        0 <= seed < id_modulus(),
    ensures
        0 <= id_of(seed, label) < id_modulus(),
    decreases label.len(),
{
    if label.len() > 0 {
        lemma_id_of_range(seed, label.drop_last());
    }
}

/// Identifier derivation is deterministic: two derivations from the same
/// seed and the same label yield the same identifier.
pub proof fn lemma_id_deterministic(seed_a: int, label_a: Seq<char>, seed_b: int, label_b: Seq<
    char,
>)
    requires
        seed_a == seed_b,
        label_a == label_b,
    ensures
        id_of(seed_a, label_a) == id_of(seed_b, label_b),
{
}

/// Seed used when the seed stack is empty.
pub open spec fn root_seed() -> int {
    2166136261
}

/// Derives widget identifiers from labels and a stack of scope seeds. Pure:
/// deriving an identifier never changes the stack; `push_id`/`pop_id` bracket
/// sub-scopes.
pub struct IdManager {
    pub stack: Vec<u64>,
}

impl IdManager {
    /// Every stacked seed lies in the identifier space.
    pub open spec fn wf(self) -> bool {
        forall|i: int| 0 <= i < self.stack@.len() ==> 0 <= #[trigger] self.stack@[i] < id_modulus()
    }

    /// The seed identifiers are currently derived from: the innermost pushed
    /// scope, or the root seed outside any scope.
    pub open spec fn seed(self) -> int {
        if self.stack@.len() == 0 {
            root_seed()
        } else {
            self.stack@.last() as int
        }
    }

    pub fn new() -> (m: IdManager)
        ensures
            m.wf(),
            m.stack@.len() == 0,
    {
        IdManager { stack: Vec::new() }
    }

    /// The identifier for `label` under the current seed: a pure derivation
    /// with no side effect.
    pub fn get_id_from_str(&self, label: &str) -> (id: u64)
        requires
            self.wf(),
        ensures
            id as int == id_of(self.seed(), label@),
            0 <= id < id_modulus(),
    {
        proof {
            lemma_id_of_range(self.seed(), label@);
        }
        let seed: u64 = if self.stack.len() == 0 {
            2166136261u64
        } else {
            self.stack[self.stack.len() - 1]
        };
        let n: usize = label.unicode_len();
        let mut h: u64 = seed;
        let mut i: usize = 0;
        while i < n
            invariant
                0 <= self.seed() < id_modulus(),
                n == label@.len(),
                0 <= i <= n,
                0 <= h < id_modulus(),
                h as int == id_of(self.seed(), label@.take(i as int)),
            decreases n - i,
        {
            let c: char = label.get_char(i);
            let folded: u64 = (h * 1000003 + c as u64) % 0x1_0000_0000u64;
            proof {
                assert(label@.take(i + 1).drop_last() =~= label@.take(i as int));
                assert(label@.take(i + 1).last() == label@[i as int]);
            }
            h = folded;
            i = i + 1;
        }
        proof {
            assert(label@.take(n as int) =~= label@);
        }
        h
    }

    /// Enter a sub-scope: derive the identifier for `label` and push it as
    /// the seed for nested widgets.
    pub fn push_id(&mut self, label: &str)
        requires
            old(self).wf(),
        ensures
            final(self).wf(),
            final(self).stack@ == old(self).stack@.push(id_of(old(self).seed(), label@) as u64),
    {
        let id = self.get_id_from_str(label);
        self.stack.push(id);
    }

    /// Leave the innermost sub-scope.
    pub fn pop_id(&mut self)
        requires
            old(self).stack@.len() > 0,
    ensures
            final(self).stack@ == old(self).stack@.drop_last(),
            old(self).wf() ==> final(self).wf(),
    {
        let _ = self.stack.pop();
        proof {
            assert(self.stack@ =~= old(self).stack@.drop_last());
        }
    }
}

} // verus!
