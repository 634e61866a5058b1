use vstd::prelude::*;

use super::super::fixtures::{Fixture, FixtureM, FixtureType};
use super::fixture_position_descriptor::FixturePositionDescriptor;
use super::group_descriptor::GroupDescriptor;
use crate::utils::sentences::{join_parts, spec_join};

verus! {

/// How many times `x` occurs in `s`.
pub open spec fn count_of_fixture_type(s: Seq<FixtureType>, x: FixtureType) -> nat
    decreases s.len(),
{
    if s.len() == 0 {
        0
    } else {
        count_of_fixture_type(s.drop_last(), x) + (if s.last() == x {
            1nat
        } else {
            0nat
        })
    }
}

/// The distinct values of `s`, in first-seen order.
pub open spec fn distinct_fixture_types(s: Seq<FixtureType>) -> Seq<FixtureType>
    decreases s.len(),
{
    if s.len() == 0 {
        Seq::<FixtureType>::empty()
    } else {
        let rest = distinct_fixture_types(s.drop_last());
        if rest.contains(s.last()) {
            rest
        } else {
            rest.push(s.last())
        }
    }
}

proof fn lemma_count_le_len(s: Seq<FixtureType>, x: FixtureType)
    ensures
        count_of_fixture_type(s, x) <= s.len(),
    decreases s.len(),
{
    if s.len() > 0 {
        lemma_count_le_len(s.drop_last(), x);
    }
}


/// A kind absent from the distinct list does not occur at all.
proof fn lemma_fixture_count_zero(s: Seq<FixtureType>, x: FixtureType)
    requires
        !distinct_fixture_types(s).contains(x),
    ensures
        count_of_fixture_type(s, x) == 0,
    decreases s.len(),
{
    if s.len() > 0 {
        let rest = distinct_fixture_types(s.drop_last());
        if rest.contains(x) {
            let w = choose|w: int| 0 <= w < rest.len() && rest[w] == x;
            if rest.contains(s.last()) {
                assert(distinct_fixture_types(s)[w] == x);
            } else {
                assert(distinct_fixture_types(s)[w] == x);
            }
            assert(false);
        }
        if s.last() == x {
            if rest.contains(s.last()) {
                assert(false);
            } else {
                assert(distinct_fixture_types(s)[distinct_fixture_types(s).len() - 1] == x);
                assert(false);
            }
        }
        lemma_fixture_count_zero(s.drop_last(), x);
    }
}

/// The index in `r` of the entry for `element`, if one exists.
fn find_kind_entry(r: &Vec<(FixtureType, usize)>, element: FixtureType) -> (idx: Option<usize>)
    ensures
        match idx {
            Some(f) => f < r@.len() && r@[f as int].0 == element,
            None => forall|k: int| 0 <= k < r@.len() ==> (#[trigger] r@[k]).0 != element,
        },
{
    let mut k: usize = 0;
    while k < r.len()
        invariant
            k <= r@.len(),
            forall|k2: int| 0 <= k2 < k ==> (#[trigger] r@[k2]).0 != element,
        decreases r@.len() - k,
    {
        if r[k].0 == element {
            return Some(k);
        }
        k = k + 1;
    }
    None
}

/// Frequency counts in first-seen order among the distinct kinds.
#[verifier::spinoff_prover]
pub fn sorted_fixture_frequencies(types: &Vec<FixtureType>) -> (r: Vec<(FixtureType, usize)>)
    ensures
        r@.map_values(|p: (FixtureType, usize)| p.0) == distinct_fixture_types(types@),
        forall|k: int|
            0 <= k < r@.len() ==> (#[trigger] r@[k]).1 as nat == count_of_fixture_type(
                types@,
                r@[k].0,
            ),
{
    let ghost s = types@;
    let mut r: Vec<(FixtureType, usize)> = Vec::new();
    proof {
        assert(s.take(0) =~= Seq::<FixtureType>::empty());
        assert(r@.map_values(|p: (FixtureType, usize)| p.0) =~= distinct_fixture_types(s.take(0)));
    }
    let mut i: usize = 0;
    while i < types.len()
        invariant
            i <= s.len(),
            s == types@,
            r@.map_values(|p: (FixtureType, usize)| p.0) =~= distinct_fixture_types(
                s.take(i as int),
            ),
            forall|k: int|
                0 <= k < r@.len() ==> (#[trigger] r@[k]).1 as nat == count_of_fixture_type(
                    s.take(i as int),
                    r@[k].0,
                ),
            forall|k1: int, k2: int|
                0 <= k1 < k2 < r@.len() ==> (#[trigger] r@[k1]).0 != (#[trigger] r@[k2]).0,
        decreases s.len() - i,
    {
        let element = types[i];
        proof {
            assert(s.take(i + 1).drop_last() =~= s.take(i as int));
            assert(s.take(i + 1).last() == s[i as int]);
            assert forall|x: FixtureType|
                count_of_fixture_type(s.take(i + 1), x) == count_of_fixture_type(
                    s.take(i as int),
                    x,
                ) + (if s[i as int] == x {
                    1nat
                } else {
                    0nat
                }) by {}
            lemma_count_le_len(s.take(i as int), s[i as int]);
        }
        let ghost old_r = r@;
        match find_kind_entry(&r, element) {
            Some(f) => {
                let (kind, count) = r[f];
                proof {
                    lemma_count_le_len(s.take(i as int), kind);
                }
                r.set(f, (kind, count + 1));
                proof {
                    assert(r@.map_values(|p: (FixtureType, usize)| p.0) =~= old_r.map_values(
                        |p: (FixtureType, usize)| p.0,
                    ));
                    assert(distinct_fixture_types(s.take(i as int)).contains(element)) by {
                        assert(old_r.map_values(|p: (FixtureType, usize)| p.0)[f as int]
                            == element);
                    }
                    assert(distinct_fixture_types(s.take(i + 1)) =~= distinct_fixture_types(
                        s.take(i as int),
                    ));
                }
            },
            None => {
                r.push((element, 1));
                proof {
                    let kinds_old = old_r.map_values(|p: (FixtureType, usize)| p.0);
                    assert(kinds_old == distinct_fixture_types(s.take(i as int)));
                    assert(!distinct_fixture_types(s.take(i as int)).contains(element)) by {
                        if kinds_old.contains(element) {
                            let w = choose|w: int|
                                0 <= w < kinds_old.len() && kinds_old[w] == element;
                            assert(old_r[w].0 == element);
                            assert(false);
                        }
                    }
                    lemma_fixture_count_zero(s.take(i as int), element);
                    assert(r@.map_values(|p: (FixtureType, usize)| p.0) =~= distinct_fixture_types(
                        s.take(i + 1),
                    ));
                }
            },
        }
        i = i + 1;
    }
    proof {
        assert(s.take(s.len() as int) =~= s);
    }
    r
}

/// A group of fixtures standing together at one spot in a room.
#[derive(Debug)]
pub struct FixturePosition {
    pub group_descriptor: Option<GroupDescriptor>,
    pub fixtures: Vec<Fixture>,
    pub position_descriptors: Vec<FixturePositionDescriptor>,
}

/// The mathematical model of a [`FixturePosition`].
#[verifier::ext_equal]
pub ghost struct FixturePositionM {
    pub group_descriptor: Option<GroupDescriptor>,
    pub fixtures: Seq<FixtureM>,
    pub position_descriptors: Seq<FixturePositionDescriptor>,
}

impl FixturePositionM {
    /// Every fixture of the group is within the generation bounds.
    pub open spec fn wf(self) -> bool {
        forall|i: int| 0 <= i < self.fixtures.len() ==> (#[trigger] self.fixtures[i]).wf()
    }
}

impl FixturePosition {
    /// The mathematical model of this position.
    pub open spec fn model(self) -> FixturePositionM {
        FixturePositionM {
            group_descriptor: self.group_descriptor,
            fixtures: self.fixtures@.map_values(|f: Fixture| f.model()),
            position_descriptors: self.position_descriptors@,
        }
    }
}

impl Clone for FixturePosition {
    fn clone(&self) -> (r: Self)
        ensures
            r.model() == self.model(),
    {
        let mut fixtures: Vec<Fixture> = Vec::new();
        let mut i: usize = 0;
        while i < self.fixtures.len()
            invariant
                i <= self.fixtures@.len(),
                fixtures@.len() == i,
                forall|j: int|
                    0 <= j < i ==> (#[trigger] fixtures@[j]).model() == self.fixtures@[j].model(),
            decreases self.fixtures@.len() - i,
        {
            fixtures.push(self.fixtures[i].clone());
            i = i + 1;
        }
        let mut position_descriptors: Vec<FixturePositionDescriptor> = Vec::new();
        let mut j: usize = 0;
        while j < self.position_descriptors.len()
            invariant
                j <= self.position_descriptors@.len(),
                position_descriptors@ =~= self.position_descriptors@.take(j as int),
            decreases self.position_descriptors@.len() - j,
        {
            position_descriptors.push(self.position_descriptors[j]);
            j = j + 1;
        }
        let r = FixturePosition {
            group_descriptor: self.group_descriptor,
            fixtures,
            position_descriptors,
        };
        proof {
            assert(r.model().fixtures =~= self.model().fixtures);
            assert(r.model().position_descriptors =~= self.model().position_descriptors);
            assert(r.model() =~= self.model());
        }
        r
    }
}

/// A group of fixtures as one observer sees it; fixtures themselves
/// are never redacted.
#[derive(Debug)]
pub struct FixturePositionView {
    pub group_descriptor: Option<GroupDescriptor>,
    pub fixtures: Vec<Fixture>,
    pub position_descriptors: Vec<FixturePositionDescriptor>,
}

/// The mathematical model of a [`FixturePositionView`]; it coincides
/// with the model of the position it mirrors.
impl FixturePositionView {
    pub open spec fn model(self) -> FixturePositionM {
        FixturePositionM {
            group_descriptor: self.group_descriptor,
            fixtures: self.fixtures@.map_values(|f: Fixture| f.model()),
            position_descriptors: self.position_descriptors@,
        }
    }
}

/// The composed noun phrase for the fixture kinds in `types`: each
/// distinct kind described with its count, joined with " and ".
pub open spec fn spec_fixtures_description(types: Seq<FixtureType>) -> Seq<char> {
    spec_join(
        distinct_fixture_types(types).map_values(
            |t: FixtureType| t.spec_describe_count(count_of_fixture_type(types, t) as int),
        ),
        " and "@,
    )
}

impl FixturePosition {
    /// The fixture kinds in this position, in order.
    pub open spec fn spec_fixture_types(self) -> Seq<FixtureType> {
        self.fixtures@.map_values(|f: Fixture| f.fixture_type)
    }

    /// Describe the fixtures as one noun phrase: frequency counts in
    /// first-seen order, each described with its count, joined with " and ".
    #[verifier::spinoff_prover]
    pub fn fixtures_description(&self) -> (r: String)
        ensures
            r@ == spec_fixtures_description(self.spec_fixture_types()),
    {
        let ghost ts = self.spec_fixture_types();
        let mut types: Vec<FixtureType> = Vec::new();
        let mut i: usize = 0;
        while i < self.fixtures.len()
            invariant
                i <= self.fixtures@.len(),
                ts == self.spec_fixture_types(),
                types@ =~= ts.take(i as int),
            decreases self.fixtures@.len() - i,
        {
            types.push(self.fixtures[i].fixture_type);
            i = i + 1;
        }
        proof {
            assert(types@ =~= ts);
        }
        let counts = sorted_fixture_frequencies(&types);
        let mut parts: Vec<String> = Vec::new();
        let mut k: usize = 0;
        while k < counts.len()
            invariant
                k <= counts@.len(),
                types@ == ts,
                counts@.map_values(|p: (FixtureType, usize)| p.0) == distinct_fixture_types(ts),
                forall|j: int|
                    0 <= j < counts@.len() ==> (#[trigger] counts@[j]).1 as nat == count_of_fixture_type(
                        ts,
                        counts@[j].0,
                    ),
                parts@.len() == k,
                forall|j: int|
                    0 <= j < k ==> (#[trigger] parts@[j])@ == counts@[j].0.spec_describe_count(
                        count_of_fixture_type(ts, counts@[j].0) as int,
                    ),
            decreases counts@.len() - k,
        {
            let (kind, count) = counts[k];
            parts.push(kind.describe_count(count));
            k = k + 1;
        }
        let r = join_parts(&parts, " and ");
        proof {
            let described = distinct_fixture_types(ts).map_values(
                |t: FixtureType| t.spec_describe_count(count_of_fixture_type(ts, t) as int),
            );
            assert(parts@.map_values(|p: String| p@) =~= described);
        }
        r
    }
}

/// The phrases of the pre-positioned descriptors in `ds`, in order.
pub open spec fn pre_descriptor_parts(ds: Seq<FixturePositionDescriptor>) -> Seq<Seq<char>>
    decreases ds.len(),
{
    if ds.len() == 0 {
        Seq::<Seq<char>>::empty()
    } else {
        pre_descriptor_parts(ds.drop_last()) + (if ds.last().spec_is_pre() {
            seq![ds.last().spec_describe()]
        } else {
            Seq::<Seq<char>>::empty()
        })
    }
}

/// The phrases of the post-positioned descriptors in `ds`, in order.
pub open spec fn post_descriptor_parts(ds: Seq<FixturePositionDescriptor>) -> Seq<Seq<char>>
    decreases ds.len(),
{
    if ds.len() == 0 {
        Seq::<Seq<char>>::empty()
    } else {
        post_descriptor_parts(ds.drop_last()) + (if ds.last().spec_is_post() {
            seq![ds.last().spec_describe()]
        } else {
            Seq::<Seq<char>>::empty()
        })
    }
}

impl FixturePosition {
    /// The ordered parts of this position's description: pre phrases,
    /// then the group descriptor, the composed noun phrase, and the
    /// post phrases.
    pub open spec fn spec_parts(self) -> Seq<Seq<char>> {
        pre_descriptor_parts(self.position_descriptors@) + (match self.group_descriptor {
            Some(g) => seq![g.spec_describe()],
            None => Seq::<Seq<char>>::empty(),
        }) + seq![spec_fixtures_description(self.spec_fixture_types())] + post_descriptor_parts(
            self.position_descriptors@,
        )
    }

    /// The full description of this position: its parts joined with spaces.
    pub open spec fn spec_describe(self) -> Seq<char> {
        spec_join(self.spec_parts(), " "@)
    }

    /// Render the position as one phrase, pre descriptors first, then
    /// the counted noun phrase, then post descriptors.
    #[verifier::spinoff_prover]
    pub fn describe(&self) -> (r: String)
        ensures
            r@ == self.spec_describe(),
    {
        let ghost ds = self.position_descriptors@;
        let mut parts: Vec<String> = Vec::new();
        let mut i: usize = 0;
        while i < self.position_descriptors.len()
            invariant
                i <= ds.len(),
                ds == self.position_descriptors@,
                parts@.map_values(|p: String| p@) =~= pre_descriptor_parts(ds.take(i as int)),
            decreases ds.len() - i,
        {
            proof {
                assert(ds.take(i + 1).drop_last() =~= ds.take(i as int));
                assert(ds.take(i + 1).last() == ds[i as int]);
            }
            let descriptor = self.position_descriptors[i];
            if descriptor.is_pre() {
                parts.push(descriptor.describe());
            }
            proof {
                assert(parts@.map_values(|p: String| p@) =~= pre_descriptor_parts(ds.take(i + 1)));
            }
            i = i + 1;
        }
        proof {
            assert(ds.take(ds.len() as int) =~= ds);
        }
        if let Some(group) = &self.group_descriptor {
            parts.push(group.describe());
        }
        parts.push(self.fixtures_description());
        let ghost mid = parts@.map_values(|p: String| p@);
        proof {
            assert(mid =~= pre_descriptor_parts(ds) + (match self.group_descriptor {
                Some(g) => seq![g.spec_describe()],
                None => Seq::<Seq<char>>::empty(),
            }) + seq![spec_fixtures_description(self.spec_fixture_types())]);
        }
        let mut j: usize = 0;
        while j < self.position_descriptors.len()
            invariant
                j <= ds.len(),
                ds == self.position_descriptors@,
                mid == pre_descriptor_parts(ds) + (match self.group_descriptor {
                    Some(g) => seq![g.spec_describe()],
                    None => Seq::<Seq<char>>::empty(),
                }) + seq![spec_fixtures_description(self.spec_fixture_types())],
                parts@.map_values(|p: String| p@) =~= mid + post_descriptor_parts(
                    ds.take(j as int),
                ),
            decreases ds.len() - j,
        {
            proof {
                assert(ds.take(j + 1).drop_last() =~= ds.take(j as int));
                assert(ds.take(j + 1).last() == ds[j as int]);
            }
            let descriptor = self.position_descriptors[j];
            if descriptor.is_post() {
                let part = descriptor.describe();
                let ghost part_chars = part@;
                let ghost parts_before = parts@;
                parts.push(part);
                proof {
                    assert(part_chars == descriptor.spec_describe());
                    assert(post_descriptor_parts(ds.take(j + 1)) =~= post_descriptor_parts(
                        ds.take(j as int),
                    ).push(descriptor.spec_describe()));
                    assert(parts@.map_values(|p: String| p@) =~= parts_before.map_values(
                        |p: String| p@,
                    ).push(part_chars));
                    assert(parts@.map_values(|p: String| p@) =~= mid + post_descriptor_parts(
                        ds.take(j + 1),
                    ));
                }
            } else {
                proof {
                    assert(post_descriptor_parts(ds.take(j + 1)) =~= post_descriptor_parts(
                        ds.take(j as int),
                    ));
                    assert(parts@.map_values(|p: String| p@) =~= mid + post_descriptor_parts(
                        ds.take(j + 1),
                    ));
                }
            }
            j = j + 1;
        }
        let r = join_parts(&parts, " ");
        proof {
            assert(ds.take(ds.len() as int) =~= ds);
            assert(parts@.map_values(|p: String| p@) =~= self.spec_parts());
        }
        r
    }
}

} // verus!
