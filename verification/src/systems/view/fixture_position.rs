use vstd::prelude::*;

use crate::components::fixtures::Fixture;
use crate::components::rooms::fixture_position::{
    FixturePosition, FixturePositionM, FixturePositionView,
};
use crate::components::rooms::fixture_position_descriptor::FixturePositionDescriptor;

verus! {

/// Project a fixture group; fixtures are never redacted, so the view's
/// model coincides with the source's.
pub fn look_at(position: &FixturePosition) -> (r: FixturePositionView)
    ensures
        r.model() == position.model(),
{
    let mut fixtures: Vec<Fixture> = Vec::new();
    let mut i: usize = 0;
    while i < position.fixtures.len()
        invariant
            i <= position.fixtures@.len(),
            fixtures@.len() == i,
            forall|j: int|
                0 <= j < i ==> (#[trigger] fixtures@[j]).model() == position.fixtures@[j].model(),
        decreases position.fixtures@.len() - i,
    {
        fixtures.push(position.fixtures[i].clone());
        i = i + 1;
    }
    let mut descriptors: Vec<FixturePositionDescriptor> = Vec::new();
    let mut j: usize = 0;
    while j < position.position_descriptors.len()
        invariant
            j <= position.position_descriptors@.len(),
            descriptors@ =~= position.position_descriptors@.take(j as int),
        decreases position.position_descriptors@.len() - j,
    {
        descriptors.push(position.position_descriptors[j]);
        j = j + 1;
    }
    let r = FixturePositionView {
        group_descriptor: position.group_descriptor,
        fixtures,
        position_descriptors: descriptors,
    };
    proof {
        assert(r.model().fixtures =~= position.model().fixtures);
        assert(r.model().position_descriptors =~= position.model().position_descriptors);
        assert(r.model() =~= position.model());
    }
    r
}

} // verus!
