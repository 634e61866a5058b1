use vstd::prelude::*;

use crate::actions::action::LootFixture;
use crate::components::games::game_state::{GameState, GameStateM};
use crate::components::items::ItemM;
use crate::errors::{Errors, ErrorsM};
use crate::events::event::{Event, EventM, ItemTakenFromFixture};
use crate::utils::ids::{parse_id, uuid_of_text};

verus! {

/// The ids that parse among the submitted id texts, in order; the
/// others are dropped silently.
pub open spec fn spec_parsed_ids(ids: Seq<Seq<char>>) -> Seq<u128>
    decreases ids.len(),
{
    if ids.len() == 0 {
        Seq::<u128>::empty()
    } else {
        spec_parsed_ids(ids.drop_last()) + (match uuid_of_text(ids.last()) {
            Some(id) => seq![id],
            None => Seq::<u128>::empty(),
        })
    }
}

/// One taking event for each item on the fixture whose id was asked
/// for, in the fixture's own item order.
pub open spec fn spec_loot_events(items: Seq<ItemM>, wanted: Seq<u128>, fixture_id: u128) -> Seq<
    EventM,
>
    decreases items.len(),
{
    if items.len() == 0 {
        Seq::<EventM>::empty()
    } else {
        spec_loot_events(items.drop_last(), wanted, fixture_id) + (if wanted.contains(
            items.last().identifier.id,
        ) {
            seq![
                EventM::ItemTakenFromFixture { fixture_id, item_id: items.last().identifier.id },
            ]
        } else {
            Seq::<EventM>::empty()
        })
    }
}

/// The events carry pairwise distinct item ids: no item is taken twice.
pub open spec fn loot_event_ids_distinct(events: Seq<EventM>) -> bool {
    forall|i: int, j: int|
        0 <= i < j < events.len() ==> (#[trigger] events[i])->ItemTakenFromFixture_item_id != (
        #[trigger] events[j])->ItemTakenFromFixture_item_id
}

/// One loot takes each item at most once: the fixture holds at most
/// one item instance per id, and each of its items yields at most one
/// event, so the taking events carry pairwise distinct ids even when
/// the submitted id list repeats an id.
pub proof fn lemma_loot_events_distinct(items: Seq<ItemM>, wanted: Seq<u128>, fixture_id: u128)
    requires
        forall|i: int, j: int|
            0 <= i < j < items.len() ==> (#[trigger] items[i]).identifier.id != (
            #[trigger] items[j]).identifier.id,
    ensures
        loot_event_ids_distinct(spec_loot_events(items, wanted, fixture_id)),
        forall|k: int|
            #![trigger spec_loot_events(items, wanted, fixture_id)[k]]
            0 <= k < spec_loot_events(items, wanted, fixture_id).len() ==> exists|i: int|
                #![auto]
                0 <= i < items.len() && spec_loot_events(
                    items,
                    wanted,
                    fixture_id,
                )[k]->ItemTakenFromFixture_item_id == items[i].identifier.id,
    decreases items.len(),
{
    if items.len() > 0 {
        assert(forall|i: int, j: int|
            0 <= i < j < items.drop_last().len() ==> (
            #[trigger] items.drop_last()[i]).identifier.id != (
            #[trigger] items.drop_last()[j]).identifier.id);
        lemma_loot_events_distinct(items.drop_last(), wanted, fixture_id);
        let whole = spec_loot_events(items, wanted, fixture_id);
        let prefix = spec_loot_events(items.drop_last(), wanted, fixture_id);
        assert forall|k: int| #![trigger whole[k]] 0 <= k < whole.len() implies exists|i: int|
            #![auto]
            0 <= i < items.len() && whole[k]->ItemTakenFromFixture_item_id
                == items[i].identifier.id by {
            if k < prefix.len() {
                assert(whole[k] == prefix[k]);
                let w = choose|i: int|
                    #![auto]
                    0 <= i < items.drop_last().len()
                        && prefix[k]->ItemTakenFromFixture_item_id == items.drop_last()[
                    i].identifier.id;
                assert(whole[k]->ItemTakenFromFixture_item_id == items[w].identifier.id);
            } else {
                assert(whole[k]->ItemTakenFromFixture_item_id == items[items.len()
                    - 1].identifier.id);
            }
        }
        assert forall|i: int, j: int| 0 <= i < j < whole.len() implies (
        #[trigger] whole[i])->ItemTakenFromFixture_item_id != (
        #[trigger] whole[j])->ItemTakenFromFixture_item_id by {
            if j < prefix.len() {
                assert(whole[i] == prefix[i] && whole[j] == prefix[j]);
            } else {
                assert(whole[i] == prefix[i]);
                assert(whole[j]->ItemTakenFromFixture_item_id == items[items.len()
                    - 1].identifier.id);
                let w = choose|w: int|
                    #![auto]
                    0 <= w < items.drop_last().len()
                        && prefix[i]->ItemTakenFromFixture_item_id == items.drop_last()[
                    w].identifier.id;
                assert(items[w].identifier.id != items[items.len() - 1].identifier.id);
            }
        }
    }
}

/// What a successful loot promises: the fixture id parsed, a fixture
/// with that id stands in the current room, and the events take
/// exactly the asked-for items that exist on it.
pub open spec fn loot_fixture_ok(action: LootFixture, s: GameStateM, events: Seq<EventM>) -> bool {
    &&& uuid_of_text(action.fixture_id@) matches Some(fixture_id)
    &&& exists|r: int, p: int, k: int|
        #![trigger s.world.rooms[r].fixture_positions[p].fixtures[k]]
        {
            &&& 0 <= r < s.world.rooms.len()
            &&& s.world.rooms[r].identifier.id == s.current_room_id
            &&& 0 <= p < s.world.rooms[r].fixture_positions.len()
            &&& 0 <= k < s.world.rooms[r].fixture_positions[p].fixtures.len()
            &&& s.world.rooms[r].fixture_positions[p].fixtures[k].identifier.id == fixture_id
            &&& events == spec_loot_events(
                s.world.rooms[r].fixture_positions[p].fixtures[k].items,
                spec_parsed_ids(action.item_ids@.map_values(|t: String| t@)),
                fixture_id,
            )
        }
}

/// When each failure is owed: a malformed fixture id, or a fixture id
/// the current room does not hold. Item ids that fail to parse or
/// match nothing are dropped silently, not reported.
pub open spec fn loot_fixture_err(action: LootFixture, s: GameStateM, e: ErrorsM) -> bool {
    match e {
        ErrorsM::InvalidIdFormat(text) => text == action.fixture_id@ && uuid_of_text(
            action.fixture_id@,
        ) is None,
        ErrorsM::FixtureNotFound(id) => uuid_of_text(action.fixture_id@) == Some(id) && exists|
            r: int,
        |
            {
                &&& 0 <= r < s.world.rooms.len()
                &&& (#[trigger] s.world.rooms[r]).identifier.id == s.current_room_id
                &&& !s.world.rooms[r].has_fixture(id)
            },
        _ => false,
    }
}

/// Whether the id is among those asked for.
fn contains_id(ids: &Vec<u128>, id: u128) -> (r: bool)
    ensures
        r == ids@.contains(id),
{
    let mut i: usize = 0;
    while i < ids.len()
        invariant
            i <= ids@.len(),
            forall|j: int| 0 <= j < i ==> ids@[j] != id,
        decreases ids@.len() - i,
    {
        if ids[i] == id {
            proof {
                assert(ids@[i as int] == id);
            }
            return true;
        }
        i = i + 1;
    }
    false
}

/// Resolve looting a fixture: keep the asked-for ids that parse,
/// filter the fixture's items down to them, and emit one taking event
/// for each match.
pub fn handle_loot_fixture(action: &LootFixture, state: &GameState) -> (r: Result<
    Vec<Event>,
    Errors,
>)
    requires
        state.wf(),
    ensures
        match r {
            Ok(events) => loot_fixture_ok(
                *action,
                state.model(),
                events@.map_values(|e: Event| e.model()),
            ) && loot_event_ids_distinct(events@.map_values(|e: Event| e.model())),
            Err(e) => loot_fixture_err(*action, state.model(), e.model()),
        },
{
    let fixture_id = match parse_id(action.fixture_id.as_str()) {
        Some(id) => id,
        None => {
            return Err(Errors::InvalidIdFormat(action.fixture_id.clone()));
        },
    };
    let room = state.current_room();
    let ghost room_index: int = choose|i: int|
        0 <= i < state.world.rooms@.len() && (#[trigger] state.world.rooms@[i]) == *room;
    proof {
        assert(state.model().world.rooms[room_index] == room.model());
    }
    let fixture = match room.find_fixture(fixture_id) {
        Some(fixture) => fixture,
        None => {
            return Err(Errors::FixtureNotFound(fixture_id));
        },
    };
    let ghost id_texts = action.item_ids@.map_values(|t: String| t@);
    let mut item_ids: Vec<u128> = Vec::new();
    let mut i: usize = 0;
    proof {
        assert(item_ids@ =~= spec_parsed_ids(id_texts.take(0)));
    }
    while i < action.item_ids.len()
        invariant
            i <= action.item_ids@.len(),
            id_texts == action.item_ids@.map_values(|t: String| t@),
            item_ids@ =~= spec_parsed_ids(id_texts.take(i as int)),
        decreases action.item_ids@.len() - i,
    {
        proof {
            assert(id_texts.take(i + 1).drop_last() =~= id_texts.take(i as int));
            assert(id_texts.take(i + 1).last() == id_texts[i as int]);
        }
        match parse_id(action.item_ids[i].as_str()) {
            Some(id) => {
                item_ids.push(id);
            },
            None => {},
        }
        proof {
            assert(item_ids@ =~= spec_parsed_ids(id_texts.take(i + 1)));
        }
        i = i + 1;
    }
    proof {
        assert(id_texts.take(id_texts.len() as int) =~= id_texts);
    }
    let ghost wanted = item_ids@;
    let ghost fm = fixture.model().items;
    let mut events: Vec<Event> = Vec::new();
    let mut k: usize = 0;
    proof {
        assert(events@.map_values(|e: Event| e.model()) =~= spec_loot_events(
            fm.take(0),
            wanted,
            fixture_id,
        ));
    }
    while k < fixture.items.len()
        invariant
            k <= fixture.items@.len(),
            wanted == item_ids@,
            fm == fixture.model().items,
            events@.map_values(|e: Event| e.model()) =~= spec_loot_events(
                fm.take(k as int),
                wanted,
                fixture_id,
            ),
        decreases fixture.items@.len() - k,
    {
        proof {
            assert(fm.take(k + 1).drop_last() =~= fm.take(k as int));
            assert(fm.take(k + 1).last() == fm[k as int]);
        }
        let item_id = fixture.items[k].item.identifier.id;
        proof {
            assert(fm[k as int].identifier.id == item_id);
        }
        if contains_id(&item_ids, item_id) {
            events.push(Event::ItemTakenFromFixture(ItemTakenFromFixture { fixture_id, item_id }));
        }
        proof {
            assert(events@.map_values(|e: Event| e.model()) =~= spec_loot_events(
                fm.take(k + 1),
                wanted,
                fixture_id,
            ));
        }
        k = k + 1;
    }
    proof {
        assert(fm.take(fm.len() as int) =~= fm);
        let (p, q) = choose|p: int, q: int|
            #![trigger room.fixture_positions@[p].fixtures@[q]]
            0 <= p < room.fixture_positions@.len() && 0 <= q
                < room.fixture_positions@[p].fixtures@.len()
                && room.fixture_positions@[p].fixtures@[q] == *fixture;
        assert(state.model().world.rooms[room_index].fixture_positions[p].fixtures[q]
            == fixture.model());
        assert(fixture.model().wf()) by {
            assert((#[trigger] state.model().world.rooms[room_index]).wf());
            assert((#[trigger] room.model().fixture_positions[p]).wf());
            assert(room.model().fixture_positions[p] == room.fixture_positions@[p].model());
            assert((#[trigger] room.fixture_positions@[p].model().fixtures[q]).wf());
            assert(room.fixture_positions@[p].model().fixtures[q] == room.fixture_positions@[
                p].fixtures@[q].model());
        }
        lemma_loot_events_distinct(fm, wanted, fixture_id);
        assert(loot_event_ids_distinct(events@.map_values(|e: Event| e.model())));
    }
    Ok(events)
}

} // verus!
