use vstd::prelude::*;

use crate::components::character::CharacterM;
use crate::components::damage::{clamped, Attack, AttackM, Defense};
use crate::components::fixtures::{Fixture, FixtureM};
use crate::components::games::game_state::{
    spec_npc_knowledge, GameState, GameStateM, Knowledge, NpcKnowledgeEntry, WorldM,
};
use crate::components::inventory::total_defense;
use crate::components::items::{CharacterItem, CharacterItemM, FixtureItem, Item, ItemM};
use crate::components::non_player::{NonPlayer, NonPlayerM, NonPlayerView, NonPlayerViewM};
use crate::components::player::{PlayerCharacter, PlayerCharacterM};
use crate::components::rooms::exit::ExitMap;
use crate::components::rooms::fixture_position::{FixturePosition, FixturePositionM};
use crate::components::rooms::fixture_position_descriptor::FixturePositionDescriptor;
use crate::components::rooms::npc_position::{NpcPosition, NpcPositionM};
use crate::components::rooms::room::{Room, RoomM};

verus! {

/// An item was taken out of a fixture and into the player's pack.
/// Applying it is a silent no-op when the pack is at its capacity of
/// one thousand items.
#[derive(Clone, Copy, Debug)]
pub struct ItemTakenFromFixture {
    pub fixture_id: u128,
    pub item_id: u128,
}

/// The observer learned an NPC's health.
#[derive(Clone, Copy, Debug)]
pub struct NpcHealthDiscovered {
    pub npc_id: u128,
}

/// The observer learned what an NPC hides in its inventory.
#[derive(Clone, Copy, Debug)]
pub struct NpcHiddenDiscovered {
    pub npc_id: u128,
}

/// The observer learned an NPC's name.
#[derive(Clone, Copy, Debug)]
pub struct NpcNameDiscovered {
    pub npc_id: u128,
}

/// The observer learned what an NPC carries packed away.
#[derive(Clone, Copy, Debug)]
pub struct NpcPackedDiscovered {
    pub npc_id: u128,
}

/// An NPC was struck. `damage` is the raw attack total; the defender's
/// defense is subtracted when the event is applied.
#[derive(Clone, Copy, Debug)]
pub struct NpcHit {
    pub npc_id: u128,
    pub attacker_id: u128,
    pub damage: i32,
}

/// An NPC was looked at; the view carries what the observer saw, and
/// applying the event records that the NPC's looks are now known.
#[derive(Debug)]
pub struct NpcViewed {
    pub npc_id: u128,
    pub npc_view: NonPlayerView,
}

/// The player gained a resurrection aura.
#[derive(Clone, Copy, Debug)]
pub struct PlayerGainsResurrectionAura {}

/// The player gained a retribution aura carrying an attack profile.
#[derive(Debug)]
pub struct PlayerGainsRetributionAura {
    pub attack: Attack,
}

/// The player gained a shield aura carrying a defense profile.
#[derive(Clone, Copy, Debug)]
pub struct PlayerGainsShieldAura {
    pub defense: Defense,
}

/// The player was healed.
#[derive(Clone, Copy, Debug)]
pub struct PlayerHealed {
    pub damage_healed: i32,
}

/// The player was struck. `damage` is the raw attack total; the
/// player's defense is subtracted when the event is applied.
#[derive(Clone, Copy, Debug)]
pub struct PlayerHit {
    pub attacker_id: u128,
    pub damage: i32,
}

/// The player left one room for another.
#[derive(Clone, Copy, Debug)]
pub struct RoomExited {
    pub exit_id: u128,
    pub old_room_id: u128,
    pub new_room_id: u128,
}

/// A new room was generated behind a previously dangling exit.
/// Applying it splices the room into the graph only when its id is
/// fresh: rooms are keyed by id, so a colliding id leaves the state
/// unchanged.
#[derive(Debug)]
pub struct RoomGenerated {
    pub room: Room,
    pub entrance_id: u128,
}

/// An immutable fact produced by resolving an action. Applying the
/// ordered list of events is the only way the game state advances.
#[derive(Debug)]
pub enum Event {
    ItemTakenFromFixture(ItemTakenFromFixture),
    NpcHealthDiscovered(NpcHealthDiscovered),
    NpcHiddenDiscovered(NpcHiddenDiscovered),
    NpcHit(NpcHit),
    NpcNameDiscovered(NpcNameDiscovered),
    NpcPackedDiscovered(NpcPackedDiscovered),
    NpcViewed(NpcViewed),
    PlayerGainsResurrectionAura(PlayerGainsResurrectionAura),
    PlayerGainsRetributionAura(PlayerGainsRetributionAura),
    PlayerGainsShieldAura(PlayerGainsShieldAura),
    PlayerHealed(PlayerHealed),
    PlayerHit(PlayerHit),
    RoomExited(RoomExited),
    RoomGenerated(RoomGenerated),
}

/// The mathematical model of an [`Event`].
#[verifier::ext_equal]
pub ghost enum EventM {
    ItemTakenFromFixture { fixture_id: u128, item_id: u128 },
    NpcHealthDiscovered { npc_id: u128 },
    NpcHiddenDiscovered { npc_id: u128 },
    NpcHit { npc_id: u128, attacker_id: u128, damage: i32 },
    NpcNameDiscovered { npc_id: u128 },
    NpcPackedDiscovered { npc_id: u128 },
    NpcViewed { npc_id: u128, npc_view: NonPlayerViewM },
    PlayerGainsResurrectionAura,
    PlayerGainsRetributionAura { attack: AttackM },
    PlayerGainsShieldAura { defense: Defense },
    PlayerHealed { damage_healed: i32 },
    PlayerHit { attacker_id: u128, damage: i32 },
    RoomExited { exit_id: u128, old_room_id: u128, new_room_id: u128 },
    RoomGenerated { room: RoomM, entrance_id: u128 },
}

impl Event {
    /// The mathematical model of this event.
    pub open spec fn model(self) -> EventM {
        match self {
            Event::ItemTakenFromFixture(e) => EventM::ItemTakenFromFixture {
                fixture_id: e.fixture_id,
                item_id: e.item_id,
            },
            Event::NpcHealthDiscovered(e) => EventM::NpcHealthDiscovered { npc_id: e.npc_id },
            Event::NpcHiddenDiscovered(e) => EventM::NpcHiddenDiscovered { npc_id: e.npc_id },
            Event::NpcHit(e) => EventM::NpcHit {
                npc_id: e.npc_id,
                attacker_id: e.attacker_id,
                damage: e.damage,
            },
            Event::NpcNameDiscovered(e) => EventM::NpcNameDiscovered { npc_id: e.npc_id },
            Event::NpcPackedDiscovered(e) => EventM::NpcPackedDiscovered { npc_id: e.npc_id },
            Event::NpcViewed(e) => EventM::NpcViewed {
                npc_id: e.npc_id,
                npc_view: e.npc_view.model(),
            },
            Event::PlayerGainsResurrectionAura(_) => EventM::PlayerGainsResurrectionAura,
            Event::PlayerGainsRetributionAura(e) => EventM::PlayerGainsRetributionAura {
                attack: e.attack.model(),
            },
            Event::PlayerGainsShieldAura(e) => EventM::PlayerGainsShieldAura {
                defense: e.defense,
            },
            Event::PlayerHealed(e) => EventM::PlayerHealed { damage_healed: e.damage_healed },
            Event::PlayerHit(e) => EventM::PlayerHit {
                attacker_id: e.attacker_id,
                damage: e.damage,
            },
            Event::RoomExited(e) => EventM::RoomExited {
                exit_id: e.exit_id,
                old_room_id: e.old_room_id,
                new_room_id: e.new_room_id,
            },
            Event::RoomGenerated(e) => EventM::RoomGenerated {
                room: e.room.model(),
                entrance_id: e.entrance_id,
            },
        }
    }
}

/// `k` with every flag of `gained` turned on as well.
pub open spec fn knowledge_joined(k: Knowledge, gained: Knowledge) -> Knowledge {
    Knowledge {
        knows_name: k.knows_name || gained.knows_name,
        knows_health: k.knows_health || gained.knows_health,
        knows_species: k.knows_species || gained.knows_species,
        knows_life_modifier: k.knows_life_modifier || gained.knows_life_modifier,
        knows_inventory: k.knows_inventory || gained.knows_inventory,
        knows_hidden_in_inventory: k.knows_hidden_in_inventory || gained.knows_hidden_in_inventory,
        knows_packed_in_inventory: k.knows_packed_in_inventory || gained.knows_packed_in_inventory,
    }
}

/// The knowledge entries after the observer gains the `gained` flags
/// about `npc_id`: every entry for that NPC is upgraded, and a fresh
/// entry is created when none exists yet.
pub open spec fn spec_upgraded_knowledge(
    entries: Seq<NpcKnowledgeEntry>,
    npc_id: u128,
    gained: Knowledge,
) -> Seq<NpcKnowledgeEntry> {
    if exists|i: int| 0 <= i < entries.len() && (#[trigger] entries[i]).npc_id == npc_id {
        entries.map_values(
            |e: NpcKnowledgeEntry|
                if e.npc_id == npc_id {
                    NpcKnowledgeEntry { npc_id, knowledge: knowledge_joined(e.knowledge, gained) }
                } else {
                    e
                },
        )
    } else {
        entries.push(
            NpcKnowledgeEntry {
                npc_id,
                knowledge: knowledge_joined(Knowledge::spec_none(), gained),
            },
        )
    }
}

/// Whether `bigger` knows at least everything `smaller` knows.
pub open spec fn knowledge_at_least(smaller: Knowledge, bigger: Knowledge) -> bool {
    &&& (smaller.knows_name ==> bigger.knows_name)
    &&& (smaller.knows_health ==> bigger.knows_health)
    &&& (smaller.knows_species ==> bigger.knows_species)
    &&& (smaller.knows_life_modifier ==> bigger.knows_life_modifier)
    &&& (smaller.knows_inventory ==> bigger.knows_inventory)
    &&& (smaller.knows_hidden_in_inventory ==> bigger.knows_hidden_in_inventory)
    &&& (smaller.knows_packed_in_inventory ==> bigger.knows_packed_in_inventory)
}

proof fn lemma_push_keeps_existing(
    entries: Seq<NpcKnowledgeEntry>,
    entry: NpcKnowledgeEntry,
    queried: u128,
)
    requires
        exists|i: int| 0 <= i < entries.len() && (#[trigger] entries[i]).npc_id == queried,
    ensures
        spec_npc_knowledge(entries.push(entry), queried) == spec_npc_knowledge(entries, queried),
    decreases entries.len(),
{
    assert(entries.push(entry)[0] == entries[0]);
    assert(entries.push(entry).skip(1) =~= entries.skip(1).push(entry));
    if entries[0].npc_id != queried {
        let w = choose|i: int|
            0 <= i < entries.len() && (#[trigger] entries[i]).npc_id == queried;
        assert(entries.skip(1)[w - 1] == entries[w]);
        lemma_push_keeps_existing(entries.skip(1), entry, queried);
    }
}

proof fn lemma_push_reaches_fresh(
    entries: Seq<NpcKnowledgeEntry>,
    entry: NpcKnowledgeEntry,
    queried: u128,
)
    requires
        forall|i: int| 0 <= i < entries.len() ==> (#[trigger] entries[i]).npc_id != queried,
    ensures
        spec_npc_knowledge(entries.push(entry), queried) == (if entry.npc_id == queried {
            entry.knowledge
        } else {
            Knowledge::spec_none()
        }),
    decreases entries.len(),
{
    if entries.len() == 0 {
        assert(entries.push(entry)[0] == entry);
        assert(entries.push(entry).skip(1) =~= Seq::<NpcKnowledgeEntry>::empty());
        assert(spec_npc_knowledge(Seq::<NpcKnowledgeEntry>::empty(), queried)
            == Knowledge::spec_none());
        if entry.npc_id != queried {
            assert(spec_npc_knowledge(entries.push(entry), queried) == spec_npc_knowledge(
                entries.push(entry).skip(1),
                queried,
            ));
        }
    } else {
        assert(entries.push(entry)[0] == entries[0]);
        assert(entries.push(entry).skip(1) =~= entries.skip(1).push(entry));
        assert(entries[0].npc_id != queried);
        assert(forall|i: int|
            0 <= i < entries.skip(1).len() ==> (#[trigger] entries.skip(1)[i]).npc_id != queried)
            by {
            assert(forall|i: int|
                0 <= i < entries.skip(1).len() ==> entries.skip(1)[i] == entries[i + 1]);
        }
        lemma_push_reaches_fresh(entries.skip(1), entry, queried);
        assert(spec_npc_knowledge(entries.push(entry), queried) == spec_npc_knowledge(
            entries.skip(1).push(entry),
            queried,
        ));
    }
}

proof fn lemma_map_leaves_others(
    entries: Seq<NpcKnowledgeEntry>,
    npc_id: u128,
    gained: Knowledge,
    queried: u128,
)
    requires
        queried != npc_id,
    ensures
        spec_npc_knowledge(
            entries.map_values(
                |e: NpcKnowledgeEntry|
                    if e.npc_id == npc_id {
                        NpcKnowledgeEntry {
                            npc_id,
                            knowledge: knowledge_joined(e.knowledge, gained),
                        }
                    } else {
                        e
                    },
            ),
            queried,
        ) == spec_npc_knowledge(entries, queried),
    decreases entries.len(),
{
    let mapped = entries.map_values(
        |e: NpcKnowledgeEntry|
            if e.npc_id == npc_id {
                NpcKnowledgeEntry { npc_id, knowledge: knowledge_joined(e.knowledge, gained) }
            } else {
                e
            },
    );
    if entries.len() > 0 {
        assert(mapped[0] == (if entries[0].npc_id == npc_id {
            NpcKnowledgeEntry {
                npc_id,
                knowledge: knowledge_joined(entries[0].knowledge, gained),
            }
        } else {
            entries[0]
        }));
        assert(mapped.skip(1) =~= entries.skip(1).map_values(
            |e: NpcKnowledgeEntry|
                if e.npc_id == npc_id {
                    NpcKnowledgeEntry { npc_id, knowledge: knowledge_joined(e.knowledge, gained) }
                } else {
                    e
                },
        ));
        lemma_map_leaves_others(entries.skip(1), npc_id, gained, queried);
    }
}

proof fn lemma_map_upgrades_target(
    entries: Seq<NpcKnowledgeEntry>,
    npc_id: u128,
    gained: Knowledge,
)
    requires
        exists|i: int| 0 <= i < entries.len() && (#[trigger] entries[i]).npc_id == npc_id,
    ensures
        spec_npc_knowledge(
            entries.map_values(
                |e: NpcKnowledgeEntry|
                    if e.npc_id == npc_id {
                        NpcKnowledgeEntry {
                            npc_id,
                            knowledge: knowledge_joined(e.knowledge, gained),
                        }
                    } else {
                        e
                    },
            ),
            npc_id,
        ) == knowledge_joined(spec_npc_knowledge(entries, npc_id), gained),
    decreases entries.len(),
{
    let mapped = entries.map_values(
        |e: NpcKnowledgeEntry|
            if e.npc_id == npc_id {
                NpcKnowledgeEntry { npc_id, knowledge: knowledge_joined(e.knowledge, gained) }
            } else {
                e
            },
    );
    assert(mapped[0] == (if entries[0].npc_id == npc_id {
        NpcKnowledgeEntry { npc_id, knowledge: knowledge_joined(entries[0].knowledge, gained) }
    } else {
        entries[0]
    }));
    assert(mapped.skip(1) =~= entries.skip(1).map_values(
        |e: NpcKnowledgeEntry|
            if e.npc_id == npc_id {
                NpcKnowledgeEntry { npc_id, knowledge: knowledge_joined(e.knowledge, gained) }
            } else {
                e
            },
    ));
    if entries[0].npc_id != npc_id {
        let w = choose|i: int|
            0 <= i < entries.len() && (#[trigger] entries[i]).npc_id == npc_id;
        assert(entries.skip(1)[w - 1] == entries[w]);
        lemma_map_upgrades_target(entries.skip(1), npc_id, gained);
    }
}

/// Knowledge is only ever upgraded, never downgraded: whatever an
/// observer already knew about any NPC is still known after any event
/// applies, whichever NPC the event concerned.
pub proof fn lemma_knowledge_never_downgraded(
    e: EventM,
    s: GameStateM,
    p: PlayerCharacterM,
    queried: u128,
)
    ensures
        knowledge_at_least(
            s.knowledge_about(queried),
            spec_apply_event(e, s, p).0.knowledge_about(queried),
        ),
{
    match e {
        EventM::NpcHealthDiscovered { npc_id } => {
            lemma_upgrade_monotonic(
                s.npc_knowledge,
                npc_id,
                (Knowledge { knows_health: true, ..Knowledge::spec_none() }),
                queried,
            );
        },
        EventM::NpcHiddenDiscovered { npc_id } => {
            lemma_upgrade_monotonic(
                s.npc_knowledge,
                npc_id,
                (Knowledge { knows_hidden_in_inventory: true, ..Knowledge::spec_none() }),
                queried,
            );
        },
        EventM::NpcNameDiscovered { npc_id } => {
            lemma_upgrade_monotonic(
                s.npc_knowledge,
                npc_id,
                (Knowledge { knows_name: true, ..Knowledge::spec_none() }),
                queried,
            );
        },
        EventM::NpcPackedDiscovered { npc_id } => {
            lemma_upgrade_monotonic(
                s.npc_knowledge,
                npc_id,
                (Knowledge { knows_packed_in_inventory: true, ..Knowledge::spec_none() }),
                queried,
            );
        },
        EventM::NpcViewed { npc_id, .. } => {
            lemma_upgrade_monotonic(s.npc_knowledge, npc_id, viewed_knowledge_gain(), queried);
        },
        _ => {},
    }
}

proof fn lemma_upgrade_monotonic(
    entries: Seq<NpcKnowledgeEntry>,
    npc_id: u128,
    gained: Knowledge,
    queried: u128,
)
    ensures
        knowledge_at_least(
            spec_npc_knowledge(entries, queried),
            spec_npc_knowledge(spec_upgraded_knowledge(entries, npc_id, gained), queried),
        ),
{
    if exists|i: int| 0 <= i < entries.len() && (#[trigger] entries[i]).npc_id == npc_id {
        if queried == npc_id {
            lemma_map_upgrades_target(entries, npc_id, gained);
        } else {
            lemma_map_leaves_others(entries, npc_id, gained, queried);
        }
    } else {
        let fresh = NpcKnowledgeEntry {
            npc_id,
            knowledge: knowledge_joined(Knowledge::spec_none(), gained),
        };
        if exists|i: int| 0 <= i < entries.len() && (#[trigger] entries[i]).npc_id == queried {
            lemma_push_keeps_existing(entries, fresh, queried);
        } else {
            lemma_push_reaches_fresh(entries, fresh, queried);
            lemma_no_entry_means_none(entries, queried);
        }
    }
}

proof fn lemma_no_entry_means_none(entries: Seq<NpcKnowledgeEntry>, queried: u128)
    requires
        !(exists|i: int| 0 <= i < entries.len() && (#[trigger] entries[i]).npc_id == queried),
    ensures
        spec_npc_knowledge(entries, queried) == Knowledge::spec_none(),
    decreases entries.len(),
{
    if entries.len() > 0 {
        assert(entries[0].npc_id != queried);
        assert(forall|i: int|
            0 <= i < entries.skip(1).len() ==> (#[trigger] entries.skip(1)[i]).npc_id != queried)
            by {
            assert(forall|i: int|
                0 <= i < entries.skip(1).len() ==> entries.skip(1)[i] == entries[i + 1]);
        }
        lemma_no_entry_means_none(entries.skip(1), queried);
    }
}

/// The flags an NPC-viewed event grants: the looks of the NPC.
pub open spec fn viewed_knowledge_gain() -> Knowledge {
    Knowledge {
        knows_species: true,
        knows_life_modifier: true,
        ..Knowledge::spec_none()
    }
}

/// A character after being struck for `damage`, its own defense
/// subtracted first.
pub open spec fn character_after_hit(c: CharacterM, damage: int) -> CharacterM {
    c.damaged(damage - total_defense(c.inventory))
}

/// An NPC after an `NpcHit` event aimed at `npc_id`.
pub open spec fn npc_after_hit(n: NonPlayerM, npc_id: u128, damage: int) -> NonPlayerM {
    if n.identifier.id == npc_id {
        NonPlayerM { character: character_after_hit(n.character, damage), ..n }
    } else {
        n
    }
}

/// An NPC position after an `NpcHit` event aimed at `npc_id`.
pub open spec fn npc_position_after_hit(p: NpcPositionM, npc_id: u128, damage: int) -> NpcPositionM {
    NpcPositionM { npcs: p.npcs.map_values(|n: NonPlayerM| npc_after_hit(n, npc_id, damage)), ..p }
}

/// A room after an `NpcHit` event aimed at `npc_id`.
pub open spec fn room_after_hit(r: RoomM, npc_id: u128, damage: int) -> RoomM {
    RoomM {
        npc_positions: r.npc_positions.map_values(
            |p: NpcPositionM| npc_position_after_hit(p, npc_id, damage),
        ),
        ..r
    }
}

/// The items of a fixture with every item of the given id removed.
pub open spec fn items_without(items: Seq<ItemM>, item_id: u128) -> Seq<ItemM>
    decreases items.len(),
{
    if items.len() == 0 {
        Seq::<ItemM>::empty()
    } else {
        items_without(items.drop_last(), item_id) + (if items.last().identifier.id == item_id {
            Seq::<ItemM>::empty()
        } else {
            seq![items.last()]
        })
    }
}

/// A fixture after the item is taken, when the fixture is the target.
pub open spec fn fixture_after_take(f: FixtureM, fixture_id: u128, item_id: u128) -> FixtureM {
    if f.identifier.id == fixture_id {
        FixtureM { items: items_without(f.items, item_id), ..f }
    } else {
        f
    }
}

/// A fixture position after the item is taken.
pub open spec fn fixture_position_after_take(
    p: FixturePositionM,
    fixture_id: u128,
    item_id: u128,
) -> FixturePositionM {
    FixturePositionM {
        fixtures: p.fixtures.map_values(|f: FixtureM| fixture_after_take(f, fixture_id, item_id)),
        ..p
    }
}

/// A room after the item is taken.
pub open spec fn room_after_take(r: RoomM, fixture_id: u128, item_id: u128) -> RoomM {
    RoomM {
        fixture_positions: r.fixture_positions.map_values(
            |p: FixturePositionM| fixture_position_after_take(p, fixture_id, item_id),
        ),
        ..r
    }
}

/// The first item with the given id in a list of fixture items.
pub open spec fn find_item_in_items(items: Seq<ItemM>, item_id: u128) -> Option<ItemM>
    decreases items.len(),
{
    if items.len() == 0 {
        None
    } else if items[0].identifier.id == item_id {
        Some(items[0])
    } else {
        find_item_in_items(items.skip(1), item_id)
    }
}

/// The first matching item held by a fixture with the given id.
pub open spec fn find_item_in_fixtures(
    fixtures: Seq<FixtureM>,
    fixture_id: u128,
    item_id: u128,
) -> Option<ItemM>
    decreases fixtures.len(),
{
    if fixtures.len() == 0 {
        None
    } else {
        let head = if fixtures[0].identifier.id == fixture_id {
            find_item_in_items(fixtures[0].items, item_id)
        } else {
            None
        };
        if head is Some {
            head
        } else {
            find_item_in_fixtures(fixtures.skip(1), fixture_id, item_id)
        }
    }
}

/// The first matching item in a room's fixtures.
pub open spec fn find_item_in_positions(
    positions: Seq<FixturePositionM>,
    fixture_id: u128,
    item_id: u128,
) -> Option<ItemM>
    decreases positions.len(),
{
    if positions.len() == 0 {
        None
    } else {
        let head = find_item_in_fixtures(positions[0].fixtures, fixture_id, item_id);
        if head is Some {
            head
        } else {
            find_item_in_positions(positions.skip(1), fixture_id, item_id)
        }
    }
}

/// The first matching item anywhere in the world.
pub open spec fn find_item_in_rooms(
    rooms: Seq<RoomM>,
    fixture_id: u128,
    item_id: u128,
) -> Option<ItemM>
    decreases rooms.len(),
{
    if rooms.len() == 0 {
        None
    } else {
        let head = find_item_in_positions(rooms[0].fixture_positions, fixture_id, item_id);
        if head is Some {
            head
        } else {
            find_item_in_rooms(rooms.skip(1), fixture_id, item_id)
        }
    }
}

/// How a taken item sits in the player's pack: loose, not readied.
pub open spec fn taken_item(item: ItemM) -> CharacterItemM {
    CharacterItemM { item, is_hidden: false, at_the_ready: false, is_multiple: false }
}

/// How one event advances the state and the player. Every variant is
/// handled; an event kind that touches nothing leaves both unchanged.
pub open spec fn spec_apply_event(e: EventM, s: GameStateM, p: PlayerCharacterM) -> (
    GameStateM,
    PlayerCharacterM,
) {
    match e {
        EventM::ItemTakenFromFixture { fixture_id, item_id } => {
            if p.character.inventory.len() >= 1000 {
                (s, p)
            } else {
                match find_item_in_rooms(s.world.rooms, fixture_id, item_id) {
                    Some(item) => (
                        GameStateM {
                            world: WorldM {
                                rooms: s.world.rooms.map_values(
                                    |r: RoomM| room_after_take(r, fixture_id, item_id),
                                ),
                                ..s.world
                            },
                            ..s
                        },
                        PlayerCharacterM {
                            character: p.character.with_item(taken_item(item)),
                            ..p
                        },
                    ),
                    None => (s, p),
                }
            }
        },
        EventM::NpcHealthDiscovered { npc_id } => (
            GameStateM {
                npc_knowledge: spec_upgraded_knowledge(
                    s.npc_knowledge,
                    npc_id,
                    (Knowledge { knows_health: true, ..Knowledge::spec_none() }),
                ),
                ..s
            },
            p,
        ),
        EventM::NpcHiddenDiscovered { npc_id } => (
            GameStateM {
                npc_knowledge: spec_upgraded_knowledge(
                    s.npc_knowledge,
                    npc_id,
                    (Knowledge { knows_hidden_in_inventory: true, ..Knowledge::spec_none() }),
                ),
                ..s
            },
            p,
        ),
        EventM::NpcHit { npc_id, damage, .. } => (
            GameStateM {
                world: WorldM {
                    rooms: s.world.rooms.map_values(
                        |r: RoomM| room_after_hit(r, npc_id, damage as int),
                    ),
                    ..s.world
                },
                ..s
            },
            p,
        ),
        EventM::NpcNameDiscovered { npc_id } => (
            GameStateM {
                npc_knowledge: spec_upgraded_knowledge(
                    s.npc_knowledge,
                    npc_id,
                    (Knowledge { knows_name: true, ..Knowledge::spec_none() }),
                ),
                ..s
            },
            p,
        ),
        EventM::NpcPackedDiscovered { npc_id } => (
            GameStateM {
                npc_knowledge: spec_upgraded_knowledge(
                    s.npc_knowledge,
                    npc_id,
                    (Knowledge { knows_packed_in_inventory: true, ..Knowledge::spec_none() }),
                ),
                ..s
            },
            p,
        ),
        EventM::NpcViewed { npc_id, .. } => (
            GameStateM {
                npc_knowledge: spec_upgraded_knowledge(
                    s.npc_knowledge,
                    npc_id,
                    viewed_knowledge_gain(),
                ),
                ..s
            },
            p,
        ),
        EventM::PlayerGainsResurrectionAura => (
            s,
            PlayerCharacterM { character: p.character.with_resurrection_aura(), ..p },
        ),
        EventM::PlayerGainsRetributionAura { attack } => (
            s,
            PlayerCharacterM { character: p.character.with_retribution_aura(attack), ..p },
        ),
        EventM::PlayerGainsShieldAura { defense } => (
            s,
            PlayerCharacterM { character: p.character.with_shield_aura(defense), ..p },
        ),
        EventM::PlayerHealed { damage_healed } => (
            s,
            PlayerCharacterM { character: p.character.healed(damage_healed as int), ..p },
        ),
        EventM::PlayerHit { damage, .. } => (
            s,
            PlayerCharacterM { character: character_after_hit(p.character, damage as int), ..p },
        ),
        EventM::RoomExited { new_room_id, .. } => (
            GameStateM { current_room_id: new_room_id, ..s },
            p,
        ),
        EventM::RoomGenerated { room, entrance_id } => {
            if s.world.has_room(room.identifier.id) {
                (s, p)
            } else {
                (
                    GameStateM {
                        world: WorldM {
                            rooms: s.world.rooms.push(room),
                            exit_graph: s.world.exit_graph.map_values(
                                |x: ExitMap|
                                    if x.exit_id == entrance_id {
                                        x.spec_resolved_with(room.identifier.id)
                                    } else {
                                        x
                                    },
                            ),
                        },
                        ..s
                    },
                    p,
                )
            }
        },
    }
}

/// The state and player after applying `events` in order: a strict
/// left fold of [`spec_apply_event`].
pub open spec fn spec_apply_events(events: Seq<EventM>, s: GameStateM, p: PlayerCharacterM) -> (
    GameStateM,
    PlayerCharacterM,
)
    decreases events.len(),
{
    if events.len() == 0 {
        (s, p)
    } else {
        let folded = spec_apply_events(events.drop_last(), s, p);
        spec_apply_event(events.last(), folded.0, folded.1)
    }
}

/// Applying a batch is the same as applying its parts one after the
/// other: the fold splits at any point, so no event can depend on an
/// event not yet applied except through the state it left behind.
pub proof fn lemma_apply_events_append(
    first: Seq<EventM>,
    second: Seq<EventM>,
    s: GameStateM,
    p: PlayerCharacterM,
)
    ensures
        spec_apply_events(first + second, s, p) == ({
            let folded = spec_apply_events(first, s, p);
            spec_apply_events(second, folded.0, folded.1)
        }),
    decreases second.len(),
{
    if second.len() == 0 {
        assert(first + second =~= first);
    } else {
        assert((first + second).drop_last() =~= first + second.drop_last());
        lemma_apply_events_append(first, second.drop_last(), s, p);
        assert((first + second).last() == second.last());
    }
}

/// What event application itself demands of an event: a generated
/// room must be within the generation bounds.
pub open spec fn event_wf(e: EventM) -> bool {
    match e {
        EventM::RoomGenerated { room, .. } => room.wf(),
        _ => true,
    }
}

/// Striking an NPC keeps a room well formed and leaves its id alone.
pub proof fn lemma_room_after_hit_wf(r: RoomM, npc_id: u128, damage: int)
    requires
        r.wf(),
    ensures
        room_after_hit(r, npc_id, damage).wf(),
        room_after_hit(r, npc_id, damage).identifier == r.identifier,
{
    let mapped = room_after_hit(r, npc_id, damage);
    assert forall|p: int| 0 <= p < mapped.npc_positions.len() implies (
    #[trigger] mapped.npc_positions[p]).wf() by {
        assert(r.npc_positions[p].wf());
        let mp = mapped.npc_positions[p];
        assert forall|k: int| 0 <= k < mp.npcs.len() implies (#[trigger] mp.npcs[k]).wf() by {
            assert(r.npc_positions[p].npcs[k].wf());
            assert(mp.npcs[k] == npc_after_hit(r.npc_positions[p].npcs[k], npc_id, damage));
        }
    }
    assert forall|p: int| 0 <= p < mapped.fixture_positions.len() implies (
    #[trigger] mapped.fixture_positions[p]).wf() by {
        assert(mapped.fixture_positions[p] == r.fixture_positions[p]);
        assert(r.fixture_positions[p].wf());
    }
}

/// Filtering an item out keeps every remaining item well formed.
pub proof fn lemma_items_without_wf(items: Seq<ItemM>, item_id: u128)
    requires
        forall|i: int| 0 <= i < items.len() ==> (#[trigger] items[i]).wf(),
    ensures
        forall|i: int|
            0 <= i < items_without(items, item_id).len() ==> (#[trigger] items_without(
                items,
                item_id,
            )[i]).wf(),
    decreases items.len(),
{
    if items.len() > 0 {
        assert(forall|i: int|
            0 <= i < items.drop_last().len() ==> (#[trigger] items.drop_last()[i]).wf());
        lemma_items_without_wf(items.drop_last(), item_id);
        assert(items[items.len() - 1].wf());
        let prefix = items_without(items.drop_last(), item_id);
        assert forall|i: int| 0 <= i < items_without(items, item_id).len() implies (
        #[trigger] items_without(items, item_id)[i]).wf() by {
            if i < prefix.len() {
                assert(items_without(items, item_id)[i] == prefix[i]);
            } else {
                assert(items_without(items, item_id)[i] == items.last());
            }
        }
    }
}

/// Filtering an item out of a list with unique ids keeps the ids
/// unique, and every remaining item was already on the list.
pub proof fn lemma_items_without_distinct(items: Seq<ItemM>, item_id: u128)
    requires
        forall|i: int, j: int|
            0 <= i < j < items.len() ==> (#[trigger] items[i]).identifier.id != (
            #[trigger] items[j]).identifier.id,
    ensures
        forall|i: int, j: int|
            0 <= i < j < items_without(items, item_id).len() ==> (#[trigger] items_without(
                items,
                item_id,
            )[i]).identifier.id != (#[trigger] items_without(items, item_id)[j]).identifier.id,
        forall|k: int|
            #![trigger items_without(items, item_id)[k]]
            0 <= k < items_without(items, item_id).len() ==> exists|i: int|
                #![auto]
                0 <= i < items.len() && items_without(items, item_id)[k] == items[i],
    decreases items.len(),
{
    if items.len() > 0 {
        assert(forall|i: int, j: int|
            0 <= i < j < items.drop_last().len() ==> (
            #[trigger] items.drop_last()[i]).identifier.id != (
            #[trigger] items.drop_last()[j]).identifier.id);
        lemma_items_without_distinct(items.drop_last(), item_id);
        let whole = items_without(items, item_id);
        let prefix = items_without(items.drop_last(), item_id);
        assert forall|k: int| #![trigger whole[k]] 0 <= k < whole.len() implies exists|i: int|
            #![auto]
            0 <= i < items.len() && whole[k] == items[i] by {
            if k < prefix.len() {
                assert(whole[k] == prefix[k]);
                let w = choose|i: int|
                    #![auto]
                    0 <= i < items.drop_last().len() && prefix[k] == items.drop_last()[i];
                assert(whole[k] == items[w]);
            } else {
                assert(whole[k] == items.last());
                assert(whole[k] == items[items.len() - 1]);
            }
        }
        assert forall|i: int, j: int| 0 <= i < j < whole.len() implies (
        #[trigger] whole[i]).identifier.id != (#[trigger] whole[j]).identifier.id by {
            if j < prefix.len() {
                assert(whole[i] == prefix[i] && whole[j] == prefix[j]);
            } else {
                assert(whole[i] == prefix[i]);
                assert(whole[j] == items[items.len() - 1]);
                let w = choose|w: int|
                    #![auto]
                    0 <= w < items.drop_last().len() && prefix[i] == items.drop_last()[w];
                assert(whole[i] == items[w]);
                assert(items[w].identifier.id != items[items.len() - 1].identifier.id);
            }
        }
    }
}

/// Taking an item keeps a fixture well formed: the remaining items are
/// still within bounds and still carry unique ids.
pub proof fn lemma_fixture_after_take_wf(f: FixtureM, fixture_id: u128, item_id: u128)
    requires
        f.wf(),
    ensures
        fixture_after_take(f, fixture_id, item_id).wf(),
{
    if f.identifier.id == fixture_id {
        lemma_items_without_wf(f.items, item_id);
        lemma_items_without_distinct(f.items, item_id);
    }
}

/// Taking an item keeps a room well formed and leaves its id alone.
pub proof fn lemma_room_after_take_wf(r: RoomM, fixture_id: u128, item_id: u128)
    requires
        r.wf(),
    ensures
        room_after_take(r, fixture_id, item_id).wf(),
        room_after_take(r, fixture_id, item_id).identifier == r.identifier,
{
    let mapped = room_after_take(r, fixture_id, item_id);
    assert forall|p: int| 0 <= p < mapped.fixture_positions.len() implies (
    #[trigger] mapped.fixture_positions[p]).wf() by {
        assert(r.fixture_positions[p].wf());
        let mp = mapped.fixture_positions[p];
        assert forall|k: int| 0 <= k < mp.fixtures.len() implies (#[trigger] mp.fixtures[k]).wf() by {
            assert(r.fixture_positions[p].fixtures[k].wf());
            assert(mp.fixtures[k] == fixture_after_take(
                r.fixture_positions[p].fixtures[k],
                fixture_id,
                item_id,
            ));
            lemma_fixture_after_take_wf(r.fixture_positions[p].fixtures[k], fixture_id, item_id);
        }
    }
    assert forall|p: int| 0 <= p < mapped.npc_positions.len() implies (
    #[trigger] mapped.npc_positions[p]).wf() by {
        assert(mapped.npc_positions[p] == r.npc_positions[p]);
        assert(r.npc_positions[p].wf());
    }
}

/// A found item is as well formed as the fixtures it came from.
pub proof fn lemma_find_item_in_items_wf(items: Seq<ItemM>, item_id: u128)
    requires
        forall|i: int| 0 <= i < items.len() ==> (#[trigger] items[i]).wf(),
    ensures
        find_item_in_items(items, item_id) matches Some(it) ==> it.wf(),
    decreases items.len(),
{
    if items.len() > 0 && items[0].identifier.id != item_id {
        assert(forall|i: int| 0 <= i < items.skip(1).len() ==> (#[trigger] items.skip(1)[i]).wf());
        lemma_find_item_in_items_wf(items.skip(1), item_id);
    }
}

pub proof fn lemma_find_item_in_fixtures_wf(fixtures: Seq<FixtureM>, fixture_id: u128, item_id: u128)
    requires
        forall|i: int| 0 <= i < fixtures.len() ==> (#[trigger] fixtures[i]).wf(),
    ensures
        find_item_in_fixtures(fixtures, fixture_id, item_id) matches Some(it) ==> it.wf(),
    decreases fixtures.len(),
{
    if fixtures.len() > 0 {
        if fixtures[0].identifier.id == fixture_id {
            assert(fixtures[0].wf());
            lemma_find_item_in_items_wf(fixtures[0].items, item_id);
        }
        assert(forall|i: int|
            0 <= i < fixtures.skip(1).len() ==> (#[trigger] fixtures.skip(1)[i]).wf());
        lemma_find_item_in_fixtures_wf(fixtures.skip(1), fixture_id, item_id);
    }
}

pub proof fn lemma_find_item_in_positions_wf(
    positions: Seq<FixturePositionM>,
    fixture_id: u128,
    item_id: u128,
)
    requires
        forall|i: int| 0 <= i < positions.len() ==> (#[trigger] positions[i]).wf(),
    ensures
        find_item_in_positions(positions, fixture_id, item_id) matches Some(it) ==> it.wf(),
    decreases positions.len(),
{
    if positions.len() > 0 {
        assert(positions[0].wf());
        lemma_find_item_in_fixtures_wf(positions[0].fixtures, fixture_id, item_id);
        assert(forall|i: int|
            0 <= i < positions.skip(1).len() ==> (#[trigger] positions.skip(1)[i]).wf());
        lemma_find_item_in_positions_wf(positions.skip(1), fixture_id, item_id);
    }
}

pub proof fn lemma_find_item_in_rooms_wf(rooms: Seq<RoomM>, fixture_id: u128, item_id: u128)
    requires
        forall|i: int| 0 <= i < rooms.len() ==> (#[trigger] rooms[i]).wf(),
    ensures
        find_item_in_rooms(rooms, fixture_id, item_id) matches Some(it) ==> it.wf(),
    decreases rooms.len(),
{
    if rooms.len() > 0 {
        assert(rooms[0].wf());
        lemma_find_item_in_positions_wf(rooms[0].fixture_positions, fixture_id, item_id);
        assert(forall|i: int| 0 <= i < rooms.skip(1).len() ==> (#[trigger] rooms.skip(1)[i]).wf());
        lemma_find_item_in_rooms_wf(rooms.skip(1), fixture_id, item_id);
    }
}

/// Applying one event preserves the state invariant and the player's
/// bounds, provided a room-exit event targets a room that exists.
pub proof fn lemma_apply_event_wf(e: EventM, s: GameStateM, p: PlayerCharacterM)
    requires
        s.wf(),
        p.character.wf(),
        event_wf(e),
        e matches EventM::RoomExited { new_room_id, .. } ==> s.world.has_room(new_room_id),
    ensures
        spec_apply_event(e, s, p).0.wf(),
        spec_apply_event(e, s, p).1.character.wf(),
{
    let (s2, p2) = spec_apply_event(e, s, p);
    match e {
        EventM::ItemTakenFromFixture { fixture_id, item_id } => {
            if p.character.inventory.len() < 1000 {
                match find_item_in_rooms(s.world.rooms, fixture_id, item_id) {
                    Some(item) => {
                        lemma_find_item_in_rooms_wf(s.world.rooms, fixture_id, item_id);
                        assert forall|i: int| 0 <= i < s2.world.rooms.len() implies (
                        #[trigger] s2.world.rooms[i]).wf() by {
                            assert(s.world.rooms[i].wf());
                            lemma_room_after_take_wf(s.world.rooms[i], fixture_id, item_id);
                        }
                        assert(s2.world.has_room(s2.current_room_id)) by {
                            let w = choose|w: int|
                                0 <= w < s.world.rooms.len() && (
                                #[trigger] s.world.rooms[w]).identifier.id == s.current_room_id;
                            lemma_room_after_take_wf(s.world.rooms[w], fixture_id, item_id);
                            assert(s2.world.rooms[w].identifier.id == s2.current_room_id);
                        }
                        assert(s2.world.rooms_unique()) by {
                            assert forall|i: int, j: int|
                                0 <= i < j < s2.world.rooms.len() implies (
                            #[trigger] s2.world.rooms[i]).identifier.id != (
                            #[trigger] s2.world.rooms[j]).identifier.id by {
                                lemma_room_after_take_wf(s.world.rooms[i], fixture_id, item_id);
                                lemma_room_after_take_wf(s.world.rooms[j], fixture_id, item_id);
                                assert(s.world.rooms[i].identifier.id
                                    != s.world.rooms[j].identifier.id);
                            }
                        }
                        assert(s2.world.exit_sides_exist()) by {
                            assert forall|i: int| 0 <= i < s2.world.exit_graph.len() implies ((
                            #[trigger] s2.world.exit_graph[i]).left_room_id matches Some(id)
                                ==> s2.world.has_room(id)) && (s2.world.exit_graph[i].right_room_id
                                matches Some(id) ==> s2.world.has_room(id)) by {
                                assert(s2.world.exit_graph[i] == s.world.exit_graph[i]);
                                if s.world.exit_graph[i].left_room_id is Some {
                                    let id = s.world.exit_graph[i].left_room_id->0;
                                    let w = choose|w: int|
                                        0 <= w < s.world.rooms.len() && (
                                        #[trigger] s.world.rooms[w]).identifier.id == id;
                                    lemma_room_after_take_wf(s.world.rooms[w], fixture_id, item_id);
                                    assert(s2.world.rooms[w].identifier.id == id);
                                }
                                if s.world.exit_graph[i].right_room_id is Some {
                                    let id = s.world.exit_graph[i].right_room_id->0;
                                    let w = choose|w: int|
                                        0 <= w < s.world.rooms.len() && (
                                        #[trigger] s.world.rooms[w]).identifier.id == id;
                                    lemma_room_after_take_wf(s.world.rooms[w], fixture_id, item_id);
                                    assert(s2.world.rooms[w].identifier.id == id);
                                }
                            }
                        }
                        assert(p2.character.wf()) by {
                            assert(item.wf());
                            assert(forall|i: int|
                                0 <= i < p.character.inventory.len() ==> (
                                #[trigger] p.character.inventory[i]).wf());
                        }
                    },
                    None => {},
                }
            }
        },
        EventM::NpcHit { npc_id, damage, .. } => {
            assert forall|i: int| 0 <= i < s2.world.rooms.len() implies (
            #[trigger] s2.world.rooms[i]).wf() by {
                assert(s.world.rooms[i].wf());
                lemma_room_after_hit_wf(s.world.rooms[i], npc_id, damage as int);
            }
            assert(s2.world.has_room(s2.current_room_id)) by {
                let w = choose|w: int|
                    0 <= w < s.world.rooms.len() && (#[trigger] s.world.rooms[w]).identifier.id
                        == s.current_room_id;
                lemma_room_after_hit_wf(s.world.rooms[w], npc_id, damage as int);
                assert(s2.world.rooms[w].identifier.id == s2.current_room_id);
            }
            assert(s2.world.rooms_unique()) by {
                assert forall|i: int, j: int| 0 <= i < j < s2.world.rooms.len() implies (
                #[trigger] s2.world.rooms[i]).identifier.id != (
                #[trigger] s2.world.rooms[j]).identifier.id by {
                    lemma_room_after_hit_wf(s.world.rooms[i], npc_id, damage as int);
                    lemma_room_after_hit_wf(s.world.rooms[j], npc_id, damage as int);
                    assert(s.world.rooms[i].identifier.id != s.world.rooms[j].identifier.id);
                }
            }
            assert(s2.world.exit_sides_exist()) by {
                assert forall|i: int| 0 <= i < s2.world.exit_graph.len() implies ((
                #[trigger] s2.world.exit_graph[i]).left_room_id matches Some(id)
                    ==> s2.world.has_room(id)) && (s2.world.exit_graph[i].right_room_id matches Some(
                    id,
                ) ==> s2.world.has_room(id)) by {
                    assert(s2.world.exit_graph[i] == s.world.exit_graph[i]);
                    if s.world.exit_graph[i].left_room_id is Some {
                        let id = s.world.exit_graph[i].left_room_id->0;
                        let w = choose|w: int|
                            0 <= w < s.world.rooms.len() && (
                            #[trigger] s.world.rooms[w]).identifier.id == id;
                        lemma_room_after_hit_wf(s.world.rooms[w], npc_id, damage as int);
                        assert(s2.world.rooms[w].identifier.id == id);
                    }
                    if s.world.exit_graph[i].right_room_id is Some {
                        let id = s.world.exit_graph[i].right_room_id->0;
                        let w = choose|w: int|
                            0 <= w < s.world.rooms.len() && (
                            #[trigger] s.world.rooms[w]).identifier.id == id;
                        lemma_room_after_hit_wf(s.world.rooms[w], npc_id, damage as int);
                        assert(s2.world.rooms[w].identifier.id == id);
                    }
                }
            }
        },
        EventM::RoomGenerated { room, entrance_id } => {
            if s.world.has_room(room.identifier.id) {
                assert(s2 == s);
            } else {
            assert(s2.world.rooms == s.world.rooms.push(room));
            assert forall|i: int| 0 <= i < s2.world.rooms.len() implies (
            #[trigger] s2.world.rooms[i]).wf() by {
                if i < s.world.rooms.len() {
                    assert(s.world.rooms[i].wf());
                }
            }
            assert(s2.world.rooms_unique()) by {
                assert forall|i: int, j: int| 0 <= i < j < s2.world.rooms.len() implies (
                #[trigger] s2.world.rooms[i]).identifier.id != (
                #[trigger] s2.world.rooms[j]).identifier.id by {
                    if j < s.world.rooms.len() {
                        assert(s.world.rooms[i].identifier.id != s.world.rooms[j].identifier.id);
                    } else {
                        assert(s2.world.rooms[i] == s.world.rooms[i]);
                        assert(s2.world.rooms[j] == room);
                        if s.world.rooms[i].identifier.id == room.identifier.id {
                            assert(s.world.has_room(room.identifier.id));
                            assert(false);
                        }
                    }
                }
            }
            assert(s2.world.has_room(s2.current_room_id)) by {
                let w = choose|w: int|
                    0 <= w < s.world.rooms.len() && (#[trigger] s.world.rooms[w]).identifier.id
                        == s.current_room_id;
                assert(s2.world.rooms[w].identifier.id == s2.current_room_id);
            }
            assert(s2.world.exits_unique()) by {
                assert forall|i: int, j: int|
                    0 <= i < j < s2.world.exit_graph.len() implies (
                #[trigger] s2.world.exit_graph[i]).exit_id != (
                #[trigger] s2.world.exit_graph[j]).exit_id by {
                    assert(s2.world.exit_graph[i].exit_id == s.world.exit_graph[i].exit_id);
                    assert(s2.world.exit_graph[j].exit_id == s.world.exit_graph[j].exit_id);
                }
            }
            assert(s2.world.exit_sides_exist()) by {
                assert forall|i: int| 0 <= i < s2.world.exit_graph.len() implies ((
                #[trigger] s2.world.exit_graph[i]).left_room_id matches Some(id)
                    ==> s2.world.has_room(id)) && (s2.world.exit_graph[i].right_room_id matches Some(
                    id,
                ) ==> s2.world.has_room(id)) by {
                    let oldx = s.world.exit_graph[i];
                    if s2.world.exit_graph[i].left_room_id is Some {
                        let id = s2.world.exit_graph[i].left_room_id->0;
                        if oldx.left_room_id == Some(id) {
                            let w = choose|w: int|
                                0 <= w < s.world.rooms.len() && (
                                #[trigger] s.world.rooms[w]).identifier.id == id;
                            assert(s2.world.rooms[w].identifier.id == id);
                        } else {
                            assert(id == room.identifier.id);
                            assert(s2.world.rooms[s.world.rooms.len() as int].identifier.id == id);
                        }
                    }
                    if s2.world.exit_graph[i].right_room_id is Some {
                        let id = s2.world.exit_graph[i].right_room_id->0;
                        if oldx.right_room_id == Some(id) {
                            let w = choose|w: int|
                                0 <= w < s.world.rooms.len() && (
                                #[trigger] s.world.rooms[w]).identifier.id == id;
                            assert(s2.world.rooms[w].identifier.id == id);
                        } else {
                            assert(id == room.identifier.id);
                            assert(s2.world.rooms[s.world.rooms.len() as int].identifier.id == id);
                        }
                    }
                }
            }
            }
        },
        _ => {},
    }
}

/// Applying a list of events preserves the state invariant, provided
/// each room-exit event targets a room that exists when it applies.
/// The events every handler emits meet that: a generated room's exit
/// event follows the generation event that creates its target.
pub open spec fn events_exit_targets_ok(events: Seq<EventM>, s: GameStateM, p: PlayerCharacterM) -> bool
    decreases events.len(),
{
    if events.len() == 0 {
        true
    } else {
        let folded = spec_apply_events(events.drop_last(), s, p);
        &&& events_exit_targets_ok(events.drop_last(), s, p)
        &&& (events.last() matches EventM::RoomExited { new_room_id, .. }
            ==> folded.0.world.has_room(new_room_id))
    }
}

/// The damage a hit applies is the attack roll total minus the
/// defender's own summed defense, and health is clamped into
/// `[0, max]`: it floors at zero and never rises above the maximum.
pub proof fn lemma_hit_damage_formula(
    e: EventM,
    s: GameStateM,
    p: PlayerCharacterM,
    r: int,
    pos: int,
    k: int,
)
    requires
        e matches EventM::NpcHit { .. },
        0 <= r < s.world.rooms.len(),
        0 <= pos < s.world.rooms[r].npc_positions.len(),
        0 <= k < s.world.rooms[r].npc_positions[pos].npcs.len(),
        s.world.rooms[r].npc_positions[pos].npcs[k].identifier.id == (e
            ->NpcHit_npc_id),
        s.world.rooms[r].npc_positions[pos].npcs[k].character.wf(),
    ensures
        ({
            let npc = s.world.rooms[r].npc_positions[pos].npcs[k];
            let after = spec_apply_event(e, s, p).0.world.rooms[r].npc_positions[pos].npcs[k];
            let damage = e->NpcHit_damage as int;
            let defense = total_defense(npc.character.inventory);
            &&& after.character.stats.health.current == clamped(
                npc.character.stats.health.current - (damage - defense),
                npc.character.stats.health.max as int,
            )
            &&& after.character.stats.health.current <= after.character.stats.health.max
            &&& after.character.stats.health.current >= 0
        }),
{
    let npc = s.world.rooms[r].npc_positions[pos].npcs[k];
    let damage = e->NpcHit_damage as int;
    let npc_id = e->NpcHit_npc_id;
    let s2 = spec_apply_event(e, s, p).0;
    assert(s2.world.rooms[r] == room_after_hit(s.world.rooms[r], npc_id, damage));
    assert(s2.world.rooms[r].npc_positions[pos] == npc_position_after_hit(
        s.world.rooms[r].npc_positions[pos],
        npc_id,
        damage,
    ));
    assert(s2.world.rooms[r].npc_positions[pos].npcs[k] == npc_after_hit(npc, npc_id, damage));
}

/// The fold of well-formed events over a well-formed state stays well
/// formed.
pub proof fn lemma_apply_events_wf(events: Seq<EventM>, s: GameStateM, p: PlayerCharacterM)
    requires
        s.wf(),
        p.character.wf(),
        forall|i: int| 0 <= i < events.len() ==> event_wf(#[trigger] events[i]),
        events_exit_targets_ok(events, s, p),
    ensures
        spec_apply_events(events, s, p).0.wf(),
        spec_apply_events(events, s, p).1.character.wf(),
    decreases events.len(),
{
    if events.len() > 0 {
        assert(forall|i: int|
            0 <= i < events.drop_last().len() ==> event_wf(#[trigger] events.drop_last()[i]));
        lemma_apply_events_wf(events.drop_last(), s, p);
        let folded = spec_apply_events(events.drop_last(), s, p);
        assert(event_wf(events[events.len() - 1]));
        lemma_apply_event_wf(events.last(), folded.0, folded.1);
    }
}

fn join_knowledge(k: Knowledge, gained: Knowledge) -> (r: Knowledge)
    ensures
        r == knowledge_joined(k, gained),
{
    Knowledge {
        knows_name: k.knows_name || gained.knows_name,
        knows_health: k.knows_health || gained.knows_health,
        knows_species: k.knows_species || gained.knows_species,
        knows_life_modifier: k.knows_life_modifier || gained.knows_life_modifier,
        knows_inventory: k.knows_inventory || gained.knows_inventory,
        knows_hidden_in_inventory: k.knows_hidden_in_inventory || gained.knows_hidden_in_inventory,
        knows_packed_in_inventory: k.knows_packed_in_inventory || gained.knows_packed_in_inventory,
    }
}

fn upgrade_knowledge(entries: &mut Vec<NpcKnowledgeEntry>, npc_id: u128, gained: Knowledge)
    ensures
        final(entries)@ == spec_upgraded_knowledge(old(entries)@, npc_id, gained),
{
    let ghost orig = old(entries)@;
    let mut found = false;
    let mut i: usize = 0;
    while i < entries.len()
        invariant
            entries@.len() == orig.len(),
            found == exists|j: int| 0 <= j < i && (#[trigger] orig[j]).npc_id == npc_id,
            i <= orig.len(),
            forall|j: int| i <= j < orig.len() ==> (#[trigger] entries@[j]) == orig[j],
            forall|j: int|
                0 <= j < i ==> (#[trigger] entries@[j]) == (if orig[j].npc_id == npc_id {
                    NpcKnowledgeEntry {
                        npc_id,
                        knowledge: knowledge_joined(orig[j].knowledge, gained),
                    }
                } else {
                    orig[j]
                }),
        decreases orig.len() - i,
    {
        if entries[i].npc_id == npc_id {
            let upgraded = join_knowledge(entries[i].knowledge, gained);
            entries.set(i, NpcKnowledgeEntry { npc_id, knowledge: upgraded });
            found = true;
            proof {
                assert((#[trigger] orig[i as int]).npc_id == npc_id);
            }
        }
        i = i + 1;
    }
    if found {
        proof {
            assert(entries@ =~= spec_upgraded_knowledge(orig, npc_id, gained));
        }
    } else {
        let fresh: Knowledge = Default::default();
        let created = join_knowledge(fresh, gained);
        entries.push(NpcKnowledgeEntry { npc_id, knowledge: created });
        proof {
            assert(entries@ =~= spec_upgraded_knowledge(orig, npc_id, gained));
        }
    }
}

/// One NPC after an `NpcHit` aimed at `npc_id`.
fn npc_after_hit_exec(npc: &NonPlayer, npc_id: u128, damage: i32) -> (r: NonPlayer)
    requires
        npc.model().wf(),
    ensures
        r.model() == npc_after_hit(npc.model(), npc_id, damage as int),
        r.model().wf(),
{
    let mut copy = npc.clone();
    if copy.identifier.id == npc_id {
        let defense = copy.character.defense();
        copy.character.take_hit(damage, defense);
        proof {
            assert(copy.model() =~= npc_after_hit(npc.model(), npc_id, damage as int));
        }
    }
    copy
}

/// One NPC position after an `NpcHit` aimed at `npc_id`.
fn npc_position_after_hit_exec(position: &NpcPosition, npc_id: u128, damage: i32) -> (r:
    NpcPosition)
    requires
        position.model().wf(),
    ensures
        r.model() == npc_position_after_hit(position.model(), npc_id, damage as int),
        r.model().wf(),
{
    let mut npcs: Vec<NonPlayer> = Vec::new();
    let mut i: usize = 0;
    while i < position.npcs.len()
        invariant
            position.model().wf(),
            i <= position.npcs@.len(),
            npcs@.len() == i,
            forall|j: int|
                0 <= j < i ==> (#[trigger] npcs@[j]).model() == npc_after_hit(
                    position.npcs@[j].model(),
                    npc_id,
                    damage as int,
                ) && npcs@[j].model().wf(),
        decreases position.npcs@.len() - i,
    {
        proof {
            assert((#[trigger] position.model().npcs[i as int]).wf());
        }
        npcs.push(npc_after_hit_exec(&position.npcs[i], npc_id, damage));
        i = i + 1;
    }
    let r = NpcPosition {
        group_descriptor: position.group_descriptor,
        npcs,
        position_descriptor: position.position_descriptor,
    };
    proof {
        assert(r.model() =~= npc_position_after_hit(position.model(), npc_id, damage as int));
    }
    r
}

/// One room after an `NpcHit` aimed at `npc_id`.
fn room_after_hit_exec(room: &Room, npc_id: u128, damage: i32) -> (r: Room)
    requires
        room.model().wf(),
    ensures
        r.model() == room_after_hit(room.model(), npc_id, damage as int),
        r.model().wf(),
{
    let mut copy = room.clone();
    let mut positions: Vec<NpcPosition> = Vec::new();
    let mut i: usize = 0;
    while i < room.npc_positions.len()
        invariant
            room.model().wf(),
            i <= room.npc_positions@.len(),
            positions@.len() == i,
            forall|j: int|
                0 <= j < i ==> (#[trigger] positions@[j]).model() == npc_position_after_hit(
                    room.npc_positions@[j].model(),
                    npc_id,
                    damage as int,
                ) && positions@[j].model().wf(),
        decreases room.npc_positions@.len() - i,
    {
        proof {
            assert((#[trigger] room.model().npc_positions[i as int]).wf());
        }
        positions.push(npc_position_after_hit_exec(&room.npc_positions[i], npc_id, damage));
        i = i + 1;
    }
    copy.npc_positions = positions;
    proof {
        assert(copy.model() =~= room_after_hit(room.model(), npc_id, damage as int));
    }
    copy
}

/// The first item with the given id among a fixture's items.
fn find_item_in_items_exec(items: &Vec<FixtureItem>, item_id: u128) -> (r: Option<Item>)
    requires
        forall|i: int| 0 <= i < items@.len() ==> (#[trigger] items@[i]).model().wf(),
    ensures
        ({
            let fr = find_item_in_items(
                items@.map_values(|fi: FixtureItem| fi.model()),
                item_id,
            );
            match r {
                Some(it) => fr == Some(it.model()) && it.model().wf(),
                None => fr is None,
            }
        }),
{
    let ghost m = items@.map_values(|fi: FixtureItem| fi.model());
    proof {
        assert(m.skip(0) =~= m);
    }
    let mut i: usize = 0;
    while i < items.len()
        invariant
            forall|j: int| 0 <= j < items@.len() ==> (#[trigger] items@[j]).model().wf(),
            m == items@.map_values(|fi: FixtureItem| fi.model()),
            i <= m.len(),
            find_item_in_items(m, item_id) == find_item_in_items(m.skip(i as int), item_id),
        decreases m.len() - i,
    {
        proof {
            assert(m.skip(i as int)[0] == m[i as int]);
            assert(m.skip(i as int).skip(1) =~= m.skip(i + 1));
        }
        if items[i].item.identifier.id == item_id {
            let found = items[i].item.clone();
            proof {
                assert(find_item_in_items(m, item_id) == Some(found.model()));
            }
            return Some(found);
        }
        i = i + 1;
    }
    proof {
        assert(m.skip(m.len() as int).len() == 0);
    }
    None
}

/// The first matching item held by a matching fixture in the list.
fn find_item_in_fixtures_exec(fixtures: &Vec<Fixture>, fixture_id: u128, item_id: u128) -> (r:
    Option<Item>)
    requires
        forall|i: int| 0 <= i < fixtures@.len() ==> (#[trigger] fixtures@[i]).model().wf(),
    ensures
        ({
            let fr = find_item_in_fixtures(
                fixtures@.map_values(|f: Fixture| f.model()),
                fixture_id,
                item_id,
            );
            match r {
                Some(it) => fr == Some(it.model()) && it.model().wf(),
                None => fr is None,
            }
        }),
{
    let ghost m = fixtures@.map_values(|f: Fixture| f.model());
    proof {
        assert(m.skip(0) =~= m);
    }
    let mut i: usize = 0;
    while i < fixtures.len()
        invariant
            forall|j: int| 0 <= j < fixtures@.len() ==> (#[trigger] fixtures@[j]).model().wf(),
            m == fixtures@.map_values(|f: Fixture| f.model()),
            i <= m.len(),
            find_item_in_fixtures(m, fixture_id, item_id) == find_item_in_fixtures(
                m.skip(i as int),
                fixture_id,
                item_id,
            ),
        decreases m.len() - i,
    {
        proof {
            assert(m.skip(i as int)[0] == m[i as int]);
            assert(m.skip(i as int).skip(1) =~= m.skip(i + 1));
            assert((#[trigger] fixtures@[i as int]).model().wf());
        }
        if fixtures[i].identifier.id == fixture_id {
            proof {
                assert forall|j: int| 0 <= j < fixtures@[i as int].items@.len() implies (
                #[trigger] fixtures@[i as int].items@[j]).model().wf() by {
                    assert(fixtures@[i as int].model().items[j] == fixtures@[i as int].items@[
                        j].model());
                    assert(fixtures@[i as int].model().items[j].wf());
                }
            }
            match find_item_in_items_exec(&fixtures[i].items, item_id) {
                Some(found) => {
                    proof {
                        assert(find_item_in_fixtures(m, fixture_id, item_id) == Some(
                            found.model(),
                        ));
                    }
                    return Some(found);
                },
                None => {},
            }
        }
        i = i + 1;
    }
    proof {
        assert(m.skip(m.len() as int).len() == 0);
    }
    None
}

/// The first matching item among a room's fixture positions.
fn find_item_in_positions_exec(
    positions: &Vec<FixturePosition>,
    fixture_id: u128,
    item_id: u128,
) -> (r: Option<Item>)
    requires
        forall|i: int| 0 <= i < positions@.len() ==> (#[trigger] positions@[i]).model().wf(),
    ensures
        ({
            let fr = find_item_in_positions(
                positions@.map_values(|p: FixturePosition| p.model()),
                fixture_id,
                item_id,
            );
            match r {
                Some(it) => fr == Some(it.model()) && it.model().wf(),
                None => fr is None,
            }
        }),
{
    let ghost m = positions@.map_values(|p: FixturePosition| p.model());
    proof {
        assert(m.skip(0) =~= m);
    }
    let mut i: usize = 0;
    while i < positions.len()
        invariant
            forall|j: int| 0 <= j < positions@.len() ==> (#[trigger] positions@[j]).model().wf(),
            m == positions@.map_values(|p: FixturePosition| p.model()),
            i <= m.len(),
            find_item_in_positions(m, fixture_id, item_id) == find_item_in_positions(
                m.skip(i as int),
                fixture_id,
                item_id,
            ),
        decreases m.len() - i,
    {
        proof {
            assert(m.skip(i as int)[0] == m[i as int]);
            assert(m.skip(i as int).skip(1) =~= m.skip(i + 1));
            assert((#[trigger] positions@[i as int]).model().wf());
            assert forall|j: int| 0 <= j < positions@[i as int].fixtures@.len() implies (
            #[trigger] positions@[i as int].fixtures@[j]).model().wf() by {
                assert(positions@[i as int].model().fixtures[j] == positions@[i as int].fixtures@[
                    j].model());
                assert(positions@[i as int].model().fixtures[j].wf());
            }
        }
        match find_item_in_fixtures_exec(&positions[i].fixtures, fixture_id, item_id) {
            Some(found) => {
                proof {
                    assert(find_item_in_positions(m, fixture_id, item_id) == Some(found.model()));
                }
                return Some(found);
            },
            None => {},
        }
        i = i + 1;
    }
    proof {
        assert(m.skip(m.len() as int).len() == 0);
    }
    None
}

/// The first matching item anywhere in the world's rooms.
fn find_item_in_rooms_exec(rooms: &Vec<Room>, fixture_id: u128, item_id: u128) -> (r: Option<Item>)
    requires
        forall|i: int| 0 <= i < rooms@.len() ==> (#[trigger] rooms@[i]).model().wf(),
    ensures
        ({
            let fr = find_item_in_rooms(
                rooms@.map_values(|r2: Room| r2.model()),
                fixture_id,
                item_id,
            );
            match r {
                Some(it) => fr == Some(it.model()) && it.model().wf(),
                None => fr is None,
            }
        }),
{
    let ghost m = rooms@.map_values(|r2: Room| r2.model());
    proof {
        assert(m.skip(0) =~= m);
    }
    let mut i: usize = 0;
    while i < rooms.len()
        invariant
            forall|j: int| 0 <= j < rooms@.len() ==> (#[trigger] rooms@[j]).model().wf(),
            m == rooms@.map_values(|r2: Room| r2.model()),
            i <= m.len(),
            find_item_in_rooms(m, fixture_id, item_id) == find_item_in_rooms(
                m.skip(i as int),
                fixture_id,
                item_id,
            ),
        decreases m.len() - i,
    {
        proof {
            assert(m.skip(i as int)[0] == m[i as int]);
            assert(m.skip(i as int).skip(1) =~= m.skip(i + 1));
            assert((#[trigger] rooms@[i as int]).model().wf());
            assert forall|j: int| 0 <= j < rooms@[i as int].fixture_positions@.len() implies (
            #[trigger] rooms@[i as int].fixture_positions@[j]).model().wf() by {
                assert(rooms@[i as int].model().fixture_positions[j] == rooms@[i as int]
                    .fixture_positions@[j].model());
                assert(rooms@[i as int].model().fixture_positions[j].wf());
            }
        }
        match find_item_in_positions_exec(&rooms[i].fixture_positions, fixture_id, item_id) {
            Some(found) => {
                proof {
                    assert(find_item_in_rooms(m, fixture_id, item_id) == Some(found.model()));
                }
                return Some(found);
            },
            None => {},
        }
        i = i + 1;
    }
    proof {
        assert(m.skip(m.len() as int).len() == 0);
    }
    None
}

/// One fixture after the taken item is removed, when it is the target.
fn fixture_after_take_exec(fixture: &Fixture, fixture_id: u128, item_id: u128) -> (r: Fixture)
    requires
        fixture.model().wf(),
    ensures
        r.model() == fixture_after_take(fixture.model(), fixture_id, item_id),
        r.model().wf(),
{
    let mut copy = fixture.clone();
    if copy.identifier.id == fixture_id {
        let ghost m = fixture.model().items;
        let mut items: Vec<FixtureItem> = Vec::new();
        let mut i: usize = 0;
        while i < fixture.items.len()
            invariant
                fixture.model().wf(),
                m == fixture.model().items,
                i <= fixture.items@.len(),
                items@.map_values(|fi: FixtureItem| fi.model()) =~= items_without(
                    m.take(i as int),
                    item_id,
                ),
                forall|j: int| 0 <= j < items@.len() ==> (#[trigger] items@[j]).model().wf(),
            decreases fixture.items@.len() - i,
        {
            proof {
                assert(m.take(i + 1).drop_last() =~= m.take(i as int));
                assert(m.take(i + 1).last() == m[i as int]);
                assert((#[trigger] fixture.model().items[i as int]).wf());
            }
            if fixture.items[i].item.identifier.id != item_id {
                items.push(fixture.items[i].clone());
            }
            proof {
                assert(items@.map_values(|fi: FixtureItem| fi.model()) =~= items_without(
                    m.take(i + 1),
                    item_id,
                ));
            }
            i = i + 1;
        }
        proof {
            assert(m.take(m.len() as int) =~= m);
        }
        copy.items = items;
    }
    proof {
        assert(copy.model() =~= fixture_after_take(fixture.model(), fixture_id, item_id));
        lemma_fixture_after_take_wf(fixture.model(), fixture_id, item_id);
    }
    copy
}

/// One fixture position after the taken item is removed.
fn fixture_position_after_take_exec(
    position: &FixturePosition,
    fixture_id: u128,
    item_id: u128,
) -> (r: FixturePosition)
    requires
        position.model().wf(),
    ensures
        r.model() == fixture_position_after_take(position.model(), fixture_id, item_id),
        r.model().wf(),
{
    let mut fixtures: Vec<Fixture> = Vec::new();
    let mut i: usize = 0;
    while i < position.fixtures.len()
        invariant
            position.model().wf(),
            i <= position.fixtures@.len(),
            fixtures@.len() == i,
            forall|j: int|
                0 <= j < i ==> (#[trigger] fixtures@[j]).model() == fixture_after_take(
                    position.fixtures@[j].model(),
                    fixture_id,
                    item_id,
                ) && fixtures@[j].model().wf(),
        decreases position.fixtures@.len() - i,
    {
        proof {
            assert((#[trigger] position.model().fixtures[i as int]).wf());
        }
        fixtures.push(fixture_after_take_exec(&position.fixtures[i], fixture_id, item_id));
        i = i + 1;
    }
    let mut descriptors: Vec<FixturePositionDescriptor> = Vec::new();
    let mut j: usize = 0;
    while j < position.position_descriptors.len()
        invariant
            j <= position.position_descriptors@.len(),
            descriptors@ =~= position.position_descriptors@.take(j as int),
        decreases position.position_descriptors@.len() - j,
    {
        descriptors.push(position.position_descriptors[j]);
        j = j + 1;
    }
    let r = FixturePosition {
        group_descriptor: position.group_descriptor,
        fixtures,
        position_descriptors: descriptors,
    };
    proof {
        assert(r.model().position_descriptors =~= position.model().position_descriptors);
        assert(r.model() =~= fixture_position_after_take(position.model(), fixture_id, item_id));
    }
    r
}

/// One room after the taken item is removed.
fn room_after_take_exec(room: &Room, fixture_id: u128, item_id: u128) -> (r: Room)
    requires
        room.model().wf(),
    ensures
        r.model() == room_after_take(room.model(), fixture_id, item_id),
        r.model().wf(),
{
    let mut copy = room.clone();
    let mut positions: Vec<FixturePosition> = Vec::new();
    let mut i: usize = 0;
    while i < room.fixture_positions.len()
        invariant
            room.model().wf(),
            i <= room.fixture_positions@.len(),
            positions@.len() == i,
            forall|j: int|
                0 <= j < i ==> (#[trigger] positions@[j]).model() == fixture_position_after_take(
                    room.fixture_positions@[j].model(),
                    fixture_id,
                    item_id,
                ) && positions@[j].model().wf(),
        decreases room.fixture_positions@.len() - i,
    {
        proof {
            assert((#[trigger] room.model().fixture_positions[i as int]).wf());
        }
        positions.push(
            fixture_position_after_take_exec(&room.fixture_positions[i], fixture_id, item_id),
        );
        i = i + 1;
    }
    copy.fixture_positions = positions;
    proof {
        assert(copy.model() =~= room_after_take(room.model(), fixture_id, item_id));
    }
    copy
}

/// Apply one event to the state and the player in place.
pub fn apply_event(event: &Event, state: &mut GameState, player: &mut PlayerCharacter)
    requires
        forall|i: int|
            0 <= i < old(state).model().world.rooms.len() ==> (#[trigger] old(state).model().world.rooms[i]).wf(),
        old(player).model().character.wf(),
        event_wf(event.model()),
    ensures
        (final(state).model(), final(player).model()) == spec_apply_event(
            event.model(),
            old(state).model(),
            old(player).model(),
        ),
        forall|i: int|
            0 <= i < final(state).model().world.rooms.len() ==> (#[trigger] final(state).model().world.rooms[i]).wf(),
        final(player).model().character.wf(),
{
    match event {
        Event::ItemTakenFromFixture(e) => {
            if player.character.inventory.equipment.len() >= 1000 {
                proof {
                    assert((final(state).model(), final(player).model()) =~= spec_apply_event(
                        event.model(),
                        old(state).model(),
                        old(player).model(),
                    ));
                }
            } else {
                proof {
                    assert forall|j: int| 0 <= j < state.world.rooms@.len() implies (
                    #[trigger] state.world.rooms@[j]).model().wf() by {
                        assert(state.model().world.rooms[j] == state.world.rooms@[j].model());
                        assert(state.model().world.rooms[j].wf());
                    }
                }
                match find_item_in_rooms_exec(&state.world.rooms, e.fixture_id, e.item_id) {
                    Some(item) => {
                        let mut rooms: Vec<Room> = Vec::new();
                        let mut i: usize = 0;
                        while i < state.world.rooms.len()
                            invariant
                                *state == *old(state),
                                forall|j: int|
                                    0 <= j < state.model().world.rooms.len() ==> (
                                    #[trigger] state.model().world.rooms[j]).wf(),
                                i <= state.world.rooms@.len(),
                                rooms@.len() == i,
                                forall|j: int|
                                    0 <= j < i ==> (#[trigger] rooms@[j]).model()
                                        == room_after_take(
                                        state.world.rooms@[j].model(),
                                        e.fixture_id,
                                        e.item_id,
                                    ) && rooms@[j].model().wf(),
                            decreases state.world.rooms@.len() - i,
                        {
                            proof {
                                assert((#[trigger] state.model().world.rooms[i as int]).wf());
                            }
                            rooms.push(
                                room_after_take_exec(
                                    &state.world.rooms[i],
                                    e.fixture_id,
                                    e.item_id,
                                ),
                            );
                            i = i + 1;
                        }
                        state.world.rooms = rooms;
                        player.character.add_item(
                            CharacterItem {
                                item,
                                is_hidden: false,
                                at_the_ready: false,
                                is_multiple: false,
                            },
                        );
                        proof {
                            assert(final(state).model().world.rooms =~= old(state).model().world.rooms.map_values(
                                |r: RoomM| room_after_take(r, e.fixture_id, e.item_id),
                            ));
                            assert(final(state).model() =~= spec_apply_event(
                                event.model(),
                                old(state).model(),
                                old(player).model(),
                            ).0);
                            assert(final(player).model() =~= spec_apply_event(
                                event.model(),
                                old(state).model(),
                                old(player).model(),
                            ).1);
                        }
                    },
                    None => {
                        proof {
                            assert((final(state).model(), final(player).model())
                                =~= spec_apply_event(
                                event.model(),
                                old(state).model(),
                                old(player).model(),
                            ));
                        }
                    },
                }
            }
        },
        Event::NpcHealthDiscovered(e) => {
            let gained = Knowledge { knows_health: true, ..Default::default() };
            upgrade_knowledge(&mut state.npc_knowledge, e.npc_id, gained);
        },
        Event::NpcHiddenDiscovered(e) => {
            let gained = Knowledge { knows_hidden_in_inventory: true, ..Default::default() };
            upgrade_knowledge(&mut state.npc_knowledge, e.npc_id, gained);
        },
        Event::NpcHit(e) => {
            let mut rooms: Vec<Room> = Vec::new();
            let mut i: usize = 0;
            while i < state.world.rooms.len()
                invariant
                    *state == *old(state),
                    forall|j: int|
                        0 <= j < state.model().world.rooms.len() ==> (
                        #[trigger] state.model().world.rooms[j]).wf(),
                    i <= state.world.rooms@.len(),
                    rooms@.len() == i,
                    forall|j: int|
                        0 <= j < i ==> (#[trigger] rooms@[j]).model() == room_after_hit(
                            state.world.rooms@[j].model(),
                            e.npc_id,
                            e.damage as int,
                        ) && rooms@[j].model().wf(),
                decreases state.world.rooms@.len() - i,
            {
                proof {
                    assert((#[trigger] state.model().world.rooms[i as int]).wf());
                }
                rooms.push(room_after_hit_exec(&state.world.rooms[i], e.npc_id, e.damage));
                i = i + 1;
            }
            state.world.rooms = rooms;
            proof {
                assert(final(state).model().world.rooms =~= old(state).model().world.rooms.map_values(
                    |r: RoomM| room_after_hit(r, e.npc_id, e.damage as int),
                ));
                assert(final(state).model() =~= spec_apply_event(
                    event.model(),
                    old(state).model(),
                    old(player).model(),
                ).0);
            }
        },
        Event::NpcNameDiscovered(e) => {
            let gained = Knowledge { knows_name: true, ..Default::default() };
            upgrade_knowledge(&mut state.npc_knowledge, e.npc_id, gained);
        },
        Event::NpcPackedDiscovered(e) => {
            let gained = Knowledge { knows_packed_in_inventory: true, ..Default::default() };
            upgrade_knowledge(&mut state.npc_knowledge, e.npc_id, gained);
        },
        Event::NpcViewed(e) => {
            let gained = Knowledge {
                knows_species: true,
                knows_life_modifier: true,
                ..Default::default()
            };
            upgrade_knowledge(&mut state.npc_knowledge, e.npc_id, gained);
        },
        Event::PlayerGainsResurrectionAura(_) => {
            player.character.current_effects.resurrection_aura = true;
            proof {
                assert(final(player).model() =~= spec_apply_event(
                    event.model(),
                    old(state).model(),
                    old(player).model(),
                ).1);
            }
        },
        Event::PlayerGainsRetributionAura(e) => {
            player.character.current_effects.retribution_aura = Some(e.attack.clone());
            proof {
                assert(final(player).model() =~= spec_apply_event(
                    event.model(),
                    old(state).model(),
                    old(player).model(),
                ).1);
            }
        },
        Event::PlayerGainsShieldAura(e) => {
            player.character.current_effects.shield_aura = Some(e.defense);
            proof {
                assert(final(player).model() =~= spec_apply_event(
                    event.model(),
                    old(state).model(),
                    old(player).model(),
                ).1);
            }
        },
        Event::PlayerHealed(e) => {
            player.character.heal(e.damage_healed);
            proof {
                assert(final(player).model() =~= spec_apply_event(
                    event.model(),
                    old(state).model(),
                    old(player).model(),
                ).1);
            }
        },
        Event::PlayerHit(e) => {
            let defense = player.character.defense();
            player.character.take_hit(e.damage, defense);
            proof {
                assert(final(player).model() =~= spec_apply_event(
                    event.model(),
                    old(state).model(),
                    old(player).model(),
                ).1);
            }
        },
        Event::RoomExited(e) => {
            state.current_room_id = e.new_room_id;
        },
        Event::RoomGenerated(e) => {
            if state.world.contains_room(e.room.identifier.id) {
                proof {
                    assert((final(state).model(), final(player).model()) =~= spec_apply_event(
                        event.model(),
                        old(state).model(),
                        old(player).model(),
                    ));
                }
                return ;
            }
            let room = e.room.clone();
            state.world.rooms.push(room);
            let ghost graph_old = state.world.exit_graph@;
            let mut i: usize = 0;
            while i < state.world.exit_graph.len()
                invariant
                    i <= state.world.exit_graph@.len(),
                    state.world.exit_graph@.len() == graph_old.len(),
                    forall|j: int|
                        i <= j < graph_old.len() ==> (#[trigger] state.world.exit_graph@[j])
                            == graph_old[j],
                    forall|j: int|
                        0 <= j < i ==> (#[trigger] state.world.exit_graph@[j]) == (
                        if graph_old[j].exit_id == e.entrance_id {
                            graph_old[j].spec_resolved_with(e.room.identifier.id)
                        } else {
                            graph_old[j]
                        }),
                    state.current_room_id == old(state).current_room_id,
                    state.npc_knowledge@ == old(state).npc_knowledge@,
                    state.player_knows_all == old(state).player_knows_all,
                    state.world.rooms@.len() == old(state).world.rooms@.len() + 1,
                    forall|j: int|
                        0 <= j < old(state).world.rooms@.len() ==> (
                        #[trigger] state.world.rooms@[j]) == old(state).world.rooms@[j],
                    state.world.rooms@.last().model() == e.room.model(),
                decreases state.world.exit_graph@.len() - i,
            {
                let entry = state.world.exit_graph[i];
                if entry.exit_id == e.entrance_id {
                    let resolved = entry.resolved_with(e.room.identifier.id);
                    state.world.exit_graph.set(i, resolved);
                }
                i = i + 1;
            }
            proof {
                assert(final(state).model().world.rooms =~= old(state).model().world.rooms.push(e.room.model()));
                assert(final(state).model().world.exit_graph =~= old(state).model().world.exit_graph.map_values(
                    |x: ExitMap|
                        if x.exit_id == e.entrance_id {
                            x.spec_resolved_with(e.room.model().identifier.id)
                        } else {
                            x
                        },
                ));
                assert(final(state).model() =~= spec_apply_event(
                    event.model(),
                    old(state).model(),
                    old(player).model(),
                ).0);
            }
        },
    }
}

/// Apply an ordered list of events: a strict left fold that produces
/// the next authoritative state and player.
pub fn apply_events(events: &Vec<Event>, state: &GameState, player: &PlayerCharacter) -> (r: (
    GameState,
    PlayerCharacter,
))
    requires
        forall|i: int|
            0 <= i < state.model().world.rooms.len() ==> (
            #[trigger] state.model().world.rooms[i]).wf(),
        player.model().character.wf(),
        forall|i: int| 0 <= i < events@.len() ==> event_wf((#[trigger] events@[i]).model()),
    ensures
        ({
            let folded = spec_apply_events(
                events@.map_values(|e: Event| e.model()),
                state.model(),
                player.model(),
            );
            &&& r.0.model() == folded.0
            &&& r.1.model() == folded.1
        }),
        forall|i: int|
            0 <= i < r.0.model().world.rooms.len() ==> (#[trigger] r.0.model().world.rooms[i]).wf(),
        r.1.model().character.wf(),
{
    let ghost em = events@.map_values(|e: Event| e.model());
    let mut new_state = state.clone();
    let mut new_player = player.clone();
    proof {
        assert(em.take(0) =~= Seq::<EventM>::empty());
    }
    let mut i: usize = 0;
    while i < events.len()
        invariant
            em == events@.map_values(|e: Event| e.model()),
            i <= events@.len(),
            forall|j: int| 0 <= j < events@.len() ==> event_wf((#[trigger] events@[j]).model()),
            (new_state.model(), new_player.model()) == spec_apply_events(
                em.take(i as int),
                state.model(),
                player.model(),
            ),
            forall|j: int|
                0 <= j < new_state.model().world.rooms.len() ==> (
                #[trigger] new_state.model().world.rooms[j]).wf(),
            new_player.model().character.wf(),
        decreases events@.len() - i,
    {
        proof {
            assert(em.take(i + 1).drop_last() =~= em.take(i as int));
            assert(em.take(i + 1).last() == em[i as int]);
            assert(event_wf((#[trigger] events@[i as int]).model()));
        }
        apply_event(&events[i], &mut new_state, &mut new_player);
        i = i + 1;
    }
    proof {
        assert(em.take(events@.len() as int) =~= em);
    }
    (new_state, new_player)
}

} // verus!
