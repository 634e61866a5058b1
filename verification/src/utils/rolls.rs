use vstd::prelude::*;

verus! {

#[verifier::external_type_specification]
#[verifier::external_body]
pub struct ExStdRng(rand::rngs::StdRng);

/// The engine's source of dice rolls: a pseudo-random generator handed
/// explicitly to every function that draws from it, so that a game can
/// be replayed from its seed.
pub struct Roller {
    rng: rand::rngs::StdRng,
}

impl Roller {
    /// Relies on rand::SeedableRng::seed_from_u64 for rand::rngs::StdRng:
    /// builds a generator from a seed; nothing is promised of the values
    /// it will produce.
    #[verifier::external_body]
    fn seeded(seed: u64) -> (r: Roller) {
        Roller { rng: <rand::rngs::StdRng as rand::SeedableRng>::seed_from_u64(seed) }
    }

    /// A roller that will replay the same rolls for the same seed.
    pub fn from_seed(seed: u64) -> (r: Roller) {
        Roller::seeded(seed)
    }

    /// Relies on rand::Rng::gen_range on a u64 range: a sample within the
    /// given inclusive bounds; the call panics only on an empty range,
    /// which the precondition rules out.
    #[verifier::external_body]
    pub fn roll_range(&mut self, low: u64, high: u64) -> (r: u64)
        requires
            low <= high,
        ensures
            low <= r <= high,
    {
        rand::Rng::gen_range(&mut self.rng, low..=high)
    }

    /// Roll `num_rolls` six-sided dice and add `modifier`.
    pub fn roll_d6(&mut self, num_rolls: usize, modifier: i32) -> (r: i32)
        requires
            num_rolls <= 1000,
            0 <= modifier <= 1000,
        ensures
            num_rolls + modifier <= r <= 6 * num_rolls + modifier,
    {
        let mut total: i32 = 0;
        let mut i: usize = 0;
        while i < num_rolls
            invariant
                i <= num_rolls <= 1000,
                i <= total <= 6 * i,
            decreases num_rolls - i,
        {
            let die = self.roll_range(1, 6);
            total = total + (die as i32);
            i = i + 1;
        }
        total + modifier
    }
}

} // verus!
