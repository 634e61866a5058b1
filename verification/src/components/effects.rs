use vstd::prelude::*;

use super::damage::{attack_opt_model, Attack, AttackM, Defense};

verus! {

/// Lasting auras a character has gained from spells.
#[derive(Debug)]
pub struct Effects {
    pub resurrection_aura: bool,
    pub retribution_aura: Option<Attack>,
    pub shield_aura: Option<Defense>,
}

/// The mathematical model of [`Effects`].
#[verifier::ext_equal]
pub ghost struct EffectsM {
    pub resurrection_aura: bool,
    pub retribution_aura: Option<AttackM>,
    pub shield_aura: Option<Defense>,
}

impl Effects {
    /// The mathematical model of these effects.
    pub open spec fn model(self) -> EffectsM {
        EffectsM {
            resurrection_aura: self.resurrection_aura,
            retribution_aura: attack_opt_model(self.retribution_aura),
            shield_aura: self.shield_aura,
        }
    }

    /// Effects of a freshly generated character: no auras at all.
    pub fn none() -> (r: Effects)
        ensures
            r.model() == (EffectsM {
                resurrection_aura: false,
                retribution_aura: None,
                shield_aura: None,
            }),
    {
        Effects { resurrection_aura: false, retribution_aura: None, shield_aura: None }
    }
}

impl Effects {
    /// The same auras as a view value.
    pub fn clone_as_view(&self) -> (r: EffectsView)
        ensures
            r.model() == self.model(),
    {
        let retribution_aura = match &self.retribution_aura {
            Some(a) => Some(a.clone()),
            None => None,
        };
        EffectsView {
            resurrection_aura: self.resurrection_aura,
            retribution_aura,
            shield_aura: self.shield_aura,
        }
    }
}

impl Clone for Effects {
    fn clone(&self) -> (r: Self)
        ensures
            r.model() == self.model(),
    {
        let retribution_aura = match &self.retribution_aura {
            Some(a) => Some(a.clone()),
            None => None,
        };
        Effects {
            resurrection_aura: self.resurrection_aura,
            retribution_aura,
            shield_aura: self.shield_aura,
        }
    }
}

/// Auras as an observer sees them; effects are never redacted.
#[derive(Debug)]
pub struct EffectsView {
    pub resurrection_aura: bool,
    pub retribution_aura: Option<Attack>,
    pub shield_aura: Option<Defense>,
}

impl EffectsView {
    /// The model of an effects view coincides with the model of the
    /// effects it mirrors.
    pub open spec fn model(self) -> EffectsM {
        EffectsM {
            resurrection_aura: self.resurrection_aura,
            retribution_aura: attack_opt_model(self.retribution_aura),
            shield_aura: self.shield_aura,
        }
    }
}

} // verus!
