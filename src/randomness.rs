//! Where a round's seed comes from.
use vstd::prelude::*;

verus! {

/// A seed: the 32 bytes of a hash.
pub type Seed = [u8; 32];

/// A source of fresh seeds. Nothing is promised of the bytes it hands out.
pub trait Randomness {
    /// A seed for the next round.
    fn next_seed(&mut self) -> Seed;
}

/// A deterministic source that hands out a fixed list of seeds in turn,
/// starting over after the last one.
pub struct SeedSequence {
    seeds: Vec<Seed>,
    next: usize,
}

impl SeedSequence {
    #[verifier::type_invariant]
    spec fn inv(self) -> bool {
        self.next < self.seeds.len()
    }

    /// The seeds, in the order they are handed out.
    pub closed spec fn spec_seeds(&self) -> Seq<Seed> {
        self.seeds@
    }

    /// The position of the seed that comes next.
    pub closed spec fn spec_position(&self) -> int {
        self.next as int
    }

    /// A source that cycles through `seeds`; `None` when there are none.
    pub fn new(seeds: Vec<Seed>) -> (r: Option<SeedSequence>)
        ensures
            seeds@.len() == 0 <==> r is None,
            r matches Some(s) ==> s.spec_seeds() == seeds@ && s.spec_position() == 0,
    {
        if seeds.len() == 0 {
            None
        } else {
            Some(SeedSequence { seeds, next: 0 })
        }
    }
}

impl Randomness for SeedSequence {
    fn next_seed(&mut self) -> (r: Seed)
        ensures
            r == old(self).spec_seeds()[old(self).spec_position()],
            final(self).spec_seeds() == old(self).spec_seeds(),
            final(self).spec_position() == if old(self).spec_position() + 1 == old(
                self,
            ).spec_seeds().len() {
                0
            } else {
                old(self).spec_position() + 1
            },
    {
        proof {
            use_type_invariant(&*self);
        }
        let seed = self.seeds[self.next];
        if self.next + 1 == self.seeds.len() {
            self.next = 0;
        } else {
            self.next = self.next + 1;
        }
        seed
    }
}

} // verus!
