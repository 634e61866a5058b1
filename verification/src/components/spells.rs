use vstd::prelude::*;

use super::damage::{attack_opt_model, Attack, AttackM, Defense};

verus! {

/// The spells the engine knows how to resolve.
#[derive(Clone, Copy, Debug, PartialEq, Eq, Structural)]
pub enum SpellName {
    ElectricBlast,
    RagingFireball,
    Heal,
    QuickHeal,
    Phoenix,
    Retribution,
    TinyShield,
}

/// A spell: its name and, where relevant, the attack or defense
/// profile it carries.
#[derive(Debug)]
pub struct Spell {
    pub name: SpellName,
    pub attack: Option<Attack>,
    pub defense: Option<Defense>,
}

/// The mathematical model of a [`Spell`].
#[verifier::ext_equal]
pub ghost struct SpellM {
    pub name: SpellName,
    pub attack: Option<AttackM>,
    pub defense: Option<Defense>,
}

impl SpellM {
    pub open spec fn wf(self) -> bool {
        &&& (self.attack matches Some(a) ==> a.wf())
        &&& (self.defense matches Some(d) ==> d.wf())
    }

    /// The flat amount a damaging or healing spell applies: the
    /// largest total its attack profile can roll, zero without one.
    pub open spec fn damage(self) -> int {
        match self.attack {
            Some(a) => 6 * a.num_rolls + a.modifier,
            None => 0,
        }
    }
}

impl Spell {
    /// The mathematical model of this spell.
    pub open spec fn model(self) -> SpellM {
        SpellM {
            name: self.name,
            attack: attack_opt_model(self.attack),
            defense: self.defense,
        }
    }

    pub open spec fn wf(self) -> bool {
        self.model().wf()
    }

    pub fn damage(&self) -> (r: i32)
        requires
            self.wf(),
        ensures
            r == self.model().damage(),
    {
        match &self.attack {
            Some(a) => 6 * (a.num_rolls as i32) + a.modifier,
            None => 0,
        }
    }
}

impl Clone for Spell {
    fn clone(&self) -> (r: Self)
        ensures
            r.model() == self.model(),
    {
        let attack = match &self.attack {
            Some(a) => Some(a.clone()),
            None => None,
        };
        Spell { name: self.name, attack, defense: self.defense }
    }
}

/// A spell a character has learned, addressable by its own id.
#[derive(Debug)]
pub struct LearnedSpell {
    pub id: u128,
    pub spell: Spell,
}

/// The mathematical model of a [`LearnedSpell`].
#[verifier::ext_equal]
pub ghost struct LearnedSpellM {
    pub id: u128,
    pub spell: SpellM,
}

impl LearnedSpellM {
    pub open spec fn wf(self) -> bool {
        self.spell.wf()
    }
}

impl LearnedSpell {
    /// The mathematical model of this learned spell.
    pub open spec fn model(self) -> LearnedSpellM {
        LearnedSpellM { id: self.id, spell: self.spell.model() }
    }

    pub open spec fn wf(self) -> bool {
        self.spell.wf()
    }
}

impl Clone for LearnedSpell {
    fn clone(&self) -> (r: Self)
        ensures
            r.model() == self.model(),
    {
        LearnedSpell { id: self.id, spell: self.spell.clone() }
    }
}

/// The spells a character holds in memory.
#[derive(Debug)]
pub struct SpellMemory {
    pub spells: Vec<LearnedSpell>,
}

impl SpellMemory {
    /// The mathematical model of the spell memory.
    pub open spec fn model(self) -> Seq<LearnedSpellM> {
        self.spells@.map_values(|s: LearnedSpell| s.model())
    }

    pub open spec fn wf(self) -> bool {
        forall|i: int| 0 <= i < self.spells@.len() ==> (#[trigger] self.spells@[i]).wf()
    }

    /// Spell memory of a freshly generated character: empty.
    pub fn empty() -> (r: SpellMemory)
        ensures
            r.model() =~= Seq::<LearnedSpellM>::empty(),
            r.wf(),
    {
        SpellMemory { spells: Vec::new() }
    }

    /// Find the first spell with the given id.
    pub fn find_spell(&self, spell_id: u128) -> (r: Option<&LearnedSpell>)
        ensures
            match r {
                Some(spell) => {
                    &&& spell.id == spell_id
                    &&& exists|i: int|
                        {
                            &&& 0 <= i < self.spells@.len()
                            &&& (#[trigger] self.spells@[i]) == *spell
                            &&& forall|j: int|
                                0 <= j < i ==> (#[trigger] self.spells@[j]).id != spell_id
                        }
                },
                None => forall|i: int|
                    0 <= i < self.spells@.len() ==> (#[trigger] self.spells@[i]).id != spell_id,
            },
    {
        let mut i: usize = 0;
        while i < self.spells.len()
            invariant
                i <= self.spells@.len(),
                forall|j: int| 0 <= j < i ==> (#[trigger] self.spells@[j]).id != spell_id,
            decreases self.spells@.len() - i,
        {
            if self.spells[i].id == spell_id {
                return Some(&self.spells[i]);
            }
            i = i + 1;
        }
        None
    }
}

/// Spell memory as an observer sees it, once it is known at all.
#[derive(Debug)]
pub struct SpellMemoryView {
    pub spells: Vec<LearnedSpell>,
}

impl SpellMemoryView {
    /// The mathematical model of this projection.
    pub open spec fn model(self) -> Seq<LearnedSpellM> {
        self.spells@.map_values(|s: LearnedSpell| s.model())
    }
}

impl Clone for SpellMemory {
    fn clone(&self) -> (r: Self)
        ensures
            r.model() == self.model(),
    {
        let mut spells: Vec<LearnedSpell> = Vec::new();
        let mut i: usize = 0;
        while i < self.spells.len()
            invariant
                i <= self.spells@.len(),
                spells@.len() == i,
                forall|j: int| 0 <= j < i ==> (#[trigger] spells@[j]).model() == self.spells@[j].model(),
            decreases self.spells@.len() - i,
        {
            spells.push(self.spells[i].clone());
            i = i + 1;
        }
        let r = SpellMemory { spells };
        proof {
            assert(r.model() =~= self.model());
        }
        r
    }
}

} // verus!
