use vstd::prelude::*;

verus! {

/// An attack profile: `num_rolls` six-sided dice plus a flat `modifier`.
#[derive(Debug)]
pub struct Attack {
    pub num_rolls: usize,
    pub modifier: i32,
    pub effects: Vec<AttackEffect>,
}

/// The mathematical model of an [`Attack`].
#[verifier::ext_equal]
pub ghost struct AttackM {
    pub num_rolls: usize,
    pub modifier: i32,
    pub effects: Seq<AttackEffect>,
}

/// The model of an optional attack profile.
pub open spec fn attack_opt_model(a: Option<Attack>) -> Option<AttackM> {
    match a {
        Some(attack) => Some(attack.model()),
        None => None,
    }
}

impl Clone for Attack {
    fn clone(&self) -> (r: Self)
        ensures
            r.model() == self.model(),
    {
        let mut effects: Vec<AttackEffect> = Vec::new();
        let mut i: usize = 0;
        while i < self.effects.len()
            invariant
                i <= self.effects@.len(),
                effects@ =~= self.effects@.take(i as int),
            decreases self.effects@.len() - i,
        {
            effects.push(self.effects[i]);
            i = i + 1;
        }
        let r = Attack { num_rolls: self.num_rolls, modifier: self.modifier, effects };
        proof {
            assert(r.model() =~= self.model());
        }
        r
    }
}

/// Qualities a weapon's attack may carry; `Crushing` amplifies the roll.
#[derive(Clone, Copy, Debug, PartialEq, Eq, Structural)]
pub enum AttackEffect {
    Acidic,
    Crushing,
    Sharp,
    Toxic,
}

/// A defense profile: flat damage resistance.
#[derive(Clone, Copy, Debug)]
pub struct Defense {
    pub damage_resistance: i32,
}

/// Hit points, kept between 0 and `max` by every mutation.
#[derive(Clone, Copy, Debug)]
pub struct Health {
    pub current: i32,
    pub max: i32,
}

/// Clamp a proposed hit-point value into `[0, max]`.
pub open spec fn clamped(value: int, max: int) -> int {
    if value < 0 {
        0
    } else if value > max {
        max
    } else {
        value
    }
}

impl Health {
    /// The health invariant: current hit points lie between zero and the maximum.
    pub open spec fn wf(self) -> bool {
        0 <= self.current <= self.max
    }
}

impl AttackM {
    /// Attack profiles the engine generates stay within these bounds, so
    /// that summing rolls over a whole inventory cannot overflow.
    pub open spec fn wf(self) -> bool {
        &&& self.num_rolls <= 1000
        &&& 0 <= self.modifier <= 1000
    }

    /// Whether the effect list includes `Crushing`.
    pub open spec fn is_crushing(self) -> bool {
        exists|i: int| 0 <= i < self.effects.len() && self.effects[i] == AttackEffect::Crushing
    }

    /// The smallest total a roll of this profile can produce.
    pub open spec fn min_roll(self) -> int {
        self.num_rolls + self.modifier
    }

    /// The largest total a roll of this profile can produce, before
    /// any `Crushing` amplification.
    pub open spec fn max_roll(self) -> int {
        6 * self.num_rolls + self.modifier
    }

    /// The `Crushing` amplification of a base roll: half again, rounded down.
    pub open spec fn amplified(roll: int) -> int {
        roll + roll / 2
    }

    /// The smallest value an attack roll of this profile can yield,
    /// amplification included.
    pub open spec fn lowest_outcome(self) -> int {
        if self.is_crushing() {
            AttackM::amplified(self.min_roll())
        } else {
            self.min_roll()
        }
    }

    /// The largest value an attack roll of this profile can yield,
    /// amplification included.
    pub open spec fn highest_outcome(self) -> int {
        if self.is_crushing() {
            AttackM::amplified(self.max_roll())
        } else {
            self.max_roll()
        }
    }
}

impl Attack {
    /// The mathematical model of this profile.
    pub open spec fn model(self) -> AttackM {
        AttackM { num_rolls: self.num_rolls, modifier: self.modifier, effects: self.effects@ }
    }

    /// Attack profiles the engine generates stay within these bounds, so
    /// that summing rolls over a whole inventory cannot overflow.
    pub open spec fn wf(self) -> bool {
        self.model().wf()
    }

    /// Roll this attack: the dice total, amplified by half again when
    /// the attack is `Crushing`.
    pub fn attack_roll(&self, roller: &mut crate::utils::rolls::Roller) -> (r: i32)
        requires
            self.wf(),
        ensures
            self.model().lowest_outcome() <= r <= self.model().highest_outcome(),
            self.model().is_crushing() ==> exists|b: int|
                #![auto]
                self.model().min_roll() <= b <= self.model().max_roll() && r == AttackM::amplified(
                    b,
                ),
    {
        let roll = roller.roll_d6(self.num_rolls, self.modifier);
        if self.is_crushing() {
            let amplified = roll + roll / 2;
            proof {
                assert(self.model().min_roll() <= roll as int <= self.model().max_roll()
                    && amplified == AttackM::amplified(roll as int));
            }
            amplified
        } else {
            roll
        }
    }

    pub fn is_crushing(&self) -> (r: bool)
        ensures
            r == self.model().is_crushing(),
    {
        let mut i: usize = 0;
        while i < self.effects.len()
            invariant
                i <= self.effects@.len(),
                forall|j: int| 0 <= j < i ==> self.effects@[j] != AttackEffect::Crushing,
            decreases self.effects@.len() - i,
        {
            if self.effects[i] == AttackEffect::Crushing {
                return true;
            }
            i = i + 1;
        }
        false
    }
}

impl Defense {
    /// Defense profiles the engine generates stay within these bounds.
    pub open spec fn wf(self) -> bool {
        0 <= self.damage_resistance <= 1000
    }
}

} // verus!
