use vstd::prelude::*;
use vstd::string::StringExecFns;

use super::super::non_player::{NonPlayer, NonPlayerM, NonPlayerView, NonPlayerViewM};
use super::super::species::Species;
use super::group_descriptor::GroupDescriptor;
use super::npc_position_descriptor::NpcPositionDescriptor;
use crate::utils::sentences::{
    first_letter_to_upper_case, join_parts, spec_capitalized, spec_join,
};

verus! {

/// How many times `x` occurs in `s`.
pub open spec fn count_of_species(s: Seq<Species>, x: Species) -> nat
    decreases s.len(),
{
    if s.len() == 0 {
        0
    } else {
        count_of_species(s.drop_last(), x) + (if s.last() == x {
            1nat
        } else {
            0nat
        })
    }
}

/// The distinct values of `s`, in first-seen order.
pub open spec fn distinct_species(s: Seq<Species>) -> Seq<Species>
    decreases s.len(),
{
    if s.len() == 0 {
        Seq::<Species>::empty()
    } else {
        let rest = distinct_species(s.drop_last());
        if rest.contains(s.last()) {
            rest
        } else {
            rest.push(s.last())
        }
    }
}

proof fn lemma_species_count_le_len(s: Seq<Species>, x: Species)
    ensures
        count_of_species(s, x) <= s.len(),
    decreases s.len(),
{
    if s.len() > 0 {
        lemma_species_count_le_len(s.drop_last(), x);
    }
}


/// A kind absent from the distinct list does not occur at all.
proof fn lemma_species_count_zero(s: Seq<Species>, x: Species)
    requires
        !distinct_species(s).contains(x),
    ensures
        count_of_species(s, x) == 0,
    decreases s.len(),
{
    if s.len() > 0 {
        let rest = distinct_species(s.drop_last());
        if rest.contains(x) {
            let w = choose|w: int| 0 <= w < rest.len() && rest[w] == x;
            if rest.contains(s.last()) {
                assert(distinct_species(s)[w] == x);
            } else {
                assert(distinct_species(s)[w] == x);
            }
            assert(false);
        }
        if s.last() == x {
            if rest.contains(s.last()) {
                assert(false);
            } else {
                assert(distinct_species(s)[distinct_species(s).len() - 1] == x);
                assert(false);
            }
        }
        lemma_species_count_zero(s.drop_last(), x);
    }
}

/// The index in `r` of the entry for `element`, if one exists.
fn find_species_entry(r: &Vec<(Species, usize)>, element: Species) -> (idx: Option<usize>)
    ensures
        match idx {
            Some(f) => f < r@.len() && r@[f as int].0 == element,
            None => forall|k: int| 0 <= k < r@.len() ==> (#[trigger] r@[k]).0 != element,
        },
{
    let mut k: usize = 0;
    while k < r.len()
        invariant
            k <= r@.len(),
            forall|k2: int| 0 <= k2 < k ==> (#[trigger] r@[k2]).0 != element,
        decreases r@.len() - k,
    {
        if r[k].0 == element {
            return Some(k);
        }
        k = k + 1;
    }
    None
}

/// Frequency counts in first-seen order among the distinct kinds.
#[verifier::spinoff_prover]
pub fn sorted_species_frequencies(kinds: &Vec<Species>) -> (r: Vec<(Species, usize)>)
    ensures
        r@.map_values(|p: (Species, usize)| p.0) == distinct_species(kinds@),
        forall|k: int|
            0 <= k < r@.len() ==> (#[trigger] r@[k]).1 as nat == count_of_species(
                kinds@,
                r@[k].0,
            ),
{
    let ghost s = kinds@;
    let mut r: Vec<(Species, usize)> = Vec::new();
    proof {
        assert(s.take(0) =~= Seq::<Species>::empty());
        assert(r@.map_values(|p: (Species, usize)| p.0) =~= distinct_species(s.take(0)));
    }
    let mut i: usize = 0;
    while i < kinds.len()
        invariant
            i <= s.len(),
            s == kinds@,
            r@.map_values(|p: (Species, usize)| p.0) =~= distinct_species(
                s.take(i as int),
            ),
            forall|k: int|
                0 <= k < r@.len() ==> (#[trigger] r@[k]).1 as nat == count_of_species(
                    s.take(i as int),
                    r@[k].0,
                ),
            forall|k1: int, k2: int|
                0 <= k1 < k2 < r@.len() ==> (#[trigger] r@[k1]).0 != (#[trigger] r@[k2]).0,
        decreases s.len() - i,
    {
        let element = kinds[i];
        proof {
            assert(s.take(i + 1).drop_last() =~= s.take(i as int));
            assert(s.take(i + 1).last() == s[i as int]);
            assert forall|x: Species|
                count_of_species(s.take(i + 1), x) == count_of_species(
                    s.take(i as int),
                    x,
                ) + (if s[i as int] == x {
                    1nat
                } else {
                    0nat
                }) by {}
            lemma_species_count_le_len(s.take(i as int), s[i as int]);
        }
        let ghost old_r = r@;
        match find_species_entry(&r, element) {
            Some(f) => {
                let (kind, count) = r[f];
                proof {
                    lemma_species_count_le_len(s.take(i as int), kind);
                }
                r.set(f, (kind, count + 1));
                proof {
                    assert(r@.map_values(|p: (Species, usize)| p.0) =~= old_r.map_values(
                        |p: (Species, usize)| p.0,
                    ));
                    assert(distinct_species(s.take(i as int)).contains(element)) by {
                        assert(old_r.map_values(|p: (Species, usize)| p.0)[f as int]
                            == element);
                    }
                    assert(distinct_species(s.take(i + 1)) =~= distinct_species(
                        s.take(i as int),
                    ));
                }
            },
            None => {
                r.push((element, 1));
                proof {
                    let kinds_old = old_r.map_values(|p: (Species, usize)| p.0);
                    assert(kinds_old == distinct_species(s.take(i as int)));
                    assert(!distinct_species(s.take(i as int)).contains(element)) by {
                        if kinds_old.contains(element) {
                            let w = choose|w: int|
                                0 <= w < kinds_old.len() && kinds_old[w] == element;
                            assert(old_r[w].0 == element);
                            assert(false);
                        }
                    }
                    lemma_species_count_zero(s.take(i as int), element);
                    assert(r@.map_values(|p: (Species, usize)| p.0) =~= distinct_species(
                        s.take(i + 1),
                    ));
                }
            },
        }
        i = i + 1;
    }
    proof {
        assert(s.take(s.len() as int) =~= s);
    }
    r
}

/// A group of NPCs standing together at one spot in a room.
#[derive(Debug)]
pub struct NpcPosition {
    pub group_descriptor: Option<GroupDescriptor>,
    pub npcs: Vec<NonPlayer>,
    pub position_descriptor: Option<NpcPositionDescriptor>,
}

/// The mathematical model of an [`NpcPosition`].
#[verifier::ext_equal]
pub ghost struct NpcPositionM {
    pub group_descriptor: Option<GroupDescriptor>,
    pub npcs: Seq<NonPlayerM>,
    pub position_descriptor: Option<NpcPositionDescriptor>,
}

impl NpcPositionM {
    /// Every NPC of the group is within the generation bounds.
    pub open spec fn wf(self) -> bool {
        forall|i: int| 0 <= i < self.npcs.len() ==> (#[trigger] self.npcs[i]).wf()
    }
}

impl NpcPosition {
    /// The mathematical model of this position.
    pub open spec fn model(self) -> NpcPositionM {
        NpcPositionM {
            group_descriptor: self.group_descriptor,
            npcs: self.npcs@.map_values(|n: NonPlayer| n.model()),
            position_descriptor: self.position_descriptor,
        }
    }
}

impl Clone for NpcPosition {
    fn clone(&self) -> (r: Self)
        ensures
            r.model() == self.model(),
    {
        let mut npcs: Vec<NonPlayer> = Vec::new();
        let mut i: usize = 0;
        while i < self.npcs.len()
            invariant
                i <= self.npcs@.len(),
                npcs@.len() == i,
                forall|j: int| 0 <= j < i ==> (#[trigger] npcs@[j]).model() == self.npcs@[j].model(),
            decreases self.npcs@.len() - i,
        {
            npcs.push(self.npcs[i].clone());
            i = i + 1;
        }
        let r = NpcPosition {
            group_descriptor: self.group_descriptor,
            npcs,
            position_descriptor: self.position_descriptor,
        };
        proof {
            assert(r.model().npcs =~= self.model().npcs);
            assert(r.model() =~= self.model());
        }
        r
    }
}

/// The species visible in a sequence of NPC views, in order: each view
/// contributes its species when the observer can see it.
pub open spec fn visible_species(npcs: Seq<NonPlayerView>) -> Seq<Species>
    decreases npcs.len(),
{
    if npcs.len() == 0 {
        Seq::<Species>::empty()
    } else {
        visible_species(npcs.drop_last()) + (match npcs.last().character.species {
            Some(s) => seq![s],
            None => Seq::<Species>::empty(),
        })
    }
}

/// A group of NPCs as one observer sees it.
#[derive(Debug)]
pub struct NpcPositionView {
    pub group_descriptor: Option<GroupDescriptor>,
    pub npcs: Vec<NonPlayerView>,
    pub position_descriptor: Option<NpcPositionDescriptor>,
}

/// The mathematical model of an [`NpcPositionView`].
#[verifier::ext_equal]
pub ghost struct NpcPositionViewM {
    pub group_descriptor: Option<GroupDescriptor>,
    pub npcs: Seq<NonPlayerViewM>,
    pub position_descriptor: Option<NpcPositionDescriptor>,
}

/// The composed noun phrase for the given species, each distinct one
/// described with its count, joined with " and ".
pub open spec fn spec_species_description(kinds: Seq<Species>) -> Seq<char> {
    spec_join(
        distinct_species(kinds).map_values(
            |t: Species| t.spec_describe_count(count_of_species(kinds, t) as int),
        ),
        " and "@,
    )
}

impl NpcPositionView {
    /// The mathematical model of this projection.
    pub open spec fn model(self) -> NpcPositionViewM {
        NpcPositionViewM {
            group_descriptor: self.group_descriptor,
            npcs: self.npcs@.map_values(|n: NonPlayerView| n.model()),
            position_descriptor: self.position_descriptor,
        }
    }

    /// The ordered parts of this position's description: a pre phrase,
    /// then the group descriptor, the composed noun phrase, and a post
    /// phrase.
    pub open spec fn spec_parts(self) -> Seq<Seq<char>> {
        (match self.position_descriptor {
            Some(d) => if d.spec_is_pre() {
                seq![d.spec_describe()]
            } else {
                Seq::<Seq<char>>::empty()
            },
            None => Seq::<Seq<char>>::empty(),
        }) + (match self.group_descriptor {
            Some(g) => seq![g.spec_describe()],
            None => Seq::<Seq<char>>::empty(),
        }) + seq![spec_species_description(visible_species(self.npcs@))] + (
        match self.position_descriptor {
            Some(d) => if d.spec_is_post() {
                seq![d.spec_describe()]
            } else {
                Seq::<Seq<char>>::empty()
            },
            None => Seq::<Seq<char>>::empty(),
        })
    }

    /// The full description of this position: its parts joined with spaces.
    pub open spec fn spec_describe(self) -> Seq<char> {
        spec_join(self.spec_parts(), " "@)
    }

    /// Describe the group's species as one noun phrase: frequency counts
    /// in first-seen order, each described with its count, joined with
    /// " and ".
    #[verifier::spinoff_prover]
    pub fn species_description(&self) -> (r: String)
        ensures
            r@ == spec_species_description(visible_species(self.npcs@)),
    {
        let ghost vs = visible_species(self.npcs@);
        let mut kinds: Vec<Species> = Vec::new();
        let mut i: usize = 0;
        while i < self.npcs.len()
            invariant
                i <= self.npcs@.len(),
                vs == visible_species(self.npcs@),
                kinds@ =~= visible_species(self.npcs@.take(i as int)),
            decreases self.npcs@.len() - i,
        {
            proof {
                assert(self.npcs@.take(i + 1).drop_last() =~= self.npcs@.take(i as int));
                assert(self.npcs@.take(i + 1).last() == self.npcs@[i as int]);
            }
            match &self.npcs[i].character.species {
                Some(species) => {
                    kinds.push(*species);
                },
                None => {},
            }
            proof {
                assert(kinds@ =~= visible_species(self.npcs@.take(i + 1)));
            }
            i = i + 1;
        }
        proof {
            assert(self.npcs@.take(self.npcs@.len() as int) =~= self.npcs@);
            assert(kinds@ =~= vs);
        }
        let counts = sorted_species_frequencies(&kinds);
        let mut parts: Vec<String> = Vec::new();
        let mut k: usize = 0;
        while k < counts.len()
            invariant
                k <= counts@.len(),
                kinds@ == vs,
                counts@.map_values(|p: (Species, usize)| p.0) == distinct_species(vs),
                forall|j: int|
                    0 <= j < counts@.len() ==> (#[trigger] counts@[j]).1 as nat == count_of_species(
                        vs,
                        counts@[j].0,
                    ),
                parts@.len() == k,
                forall|j: int|
                    0 <= j < k ==> (#[trigger] parts@[j])@ == counts@[j].0.spec_describe_count(
                        count_of_species(vs, counts@[j].0) as int,
                    ),
            decreases counts@.len() - k,
        {
            let (kind, count) = counts[k];
            parts.push(kind.describe_count(count));
            k = k + 1;
        }
        let r = join_parts(&parts, " and ");
        proof {
            let described = distinct_species(vs).map_values(
                |t: Species| t.spec_describe_count(count_of_species(vs, t) as int),
            );
            assert(parts@.map_values(|p: String| p@) =~= described);
        }
        r
    }

    /// Render the position as one phrase, a pre phrase first, then the
    /// counted noun phrase, then a post phrase.
    #[verifier::spinoff_prover]
    pub fn describe(&self) -> (r: String)
        ensures
            r@ == self.spec_describe(),
    {
        let mut parts: Vec<String> = Vec::new();
        if let Some(descriptor) = &self.position_descriptor {
            if descriptor.is_pre() {
                parts.push(descriptor.describe());
            }
        }
        if let Some(group) = &self.group_descriptor {
            parts.push(group.describe());
        }
        parts.push(self.species_description());
        if let Some(descriptor) = &self.position_descriptor {
            if descriptor.is_post() {
                parts.push(descriptor.describe());
            }
        }
        let r = join_parts(&parts, " ");
        proof {
            assert(parts@.map_values(|p: String| p@) =~= self.spec_parts());
        }
        r
    }

    /// The description as a sentence: first letter upper-cased, a full
    /// stop at the end.
    pub fn display_as_sentence(&self) -> (r: String)
        ensures
            r@ == spec_capitalized(self.spec_describe() + "."@),
    {
        let base = self.describe();
        let with_stop = base.concat(".");
        first_letter_to_upper_case(with_stop.as_str())
    }
}

} // verus!
