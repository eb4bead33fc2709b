//! The mating engine: characters finding mates.

use crate::character::{Character, CharacterId};
use crate::relation::{
    spec_add_between, spec_has_relation, CharacterRelationType, CharacterRelationView,
};
use crate::world::SimulationData;
use vstd::prelude::*;

verus! {

/// Is the character at position `i` eligible for mating: alive, in a
/// reproduction-capable life stage, and not already holding a mate relation.
pub open spec fn spec_can_become_mate(data: SimulationData, i: int) -> bool {
    let character = data.character_manager@[i]@;
    &&& character.death_date is None
    &&& data.race_manager@[character.race_id as int]@.stages[character.life_stage as int]
        .reproduction is Some
    &&& !spec_has_relation(data.relation_manager@, character.id, CharacterRelationType::Mate)
}

/// Do the characters at positions `i` and `j` fit each other: same race,
/// different gender, and the candidate at `j` is itself eligible.
pub open spec fn spec_is_valid_match(data: SimulationData, i: int, j: int) -> bool {
    let character = data.character_manager@[i]@;
    let candidate = data.character_manager@[j]@;
    &&& character.race_id == candidate.race_id
    &&& character.gender != candidate.gender
    &&& spec_can_become_mate(data, j)
}

/// The position of the first candidate at position `j` or later that fits the
/// character at position `i`, if any.
pub open spec fn spec_match_scan(data: SimulationData, i: int, j: int) -> Option<int>
    decreases data.character_manager@.len() - j,
{
    if j < 0 || j >= data.character_manager@.len() {
        None
    } else if spec_is_valid_match(data, i, j) {
        Some(j)
    } else {
        spec_match_scan(data, i, j + 1)
    }
}

/// The mate found for the character at position `i`: the first fitting
/// candidate scanning forward from the character's own position. The
/// character never fits itself, as it holds its own gender; so only
/// candidates with a strictly greater position can be found, which keeps one
/// pair from being recorded twice within a tick.
pub open spec fn spec_match_for(data: SimulationData, i: int) -> Option<int> {
    spec_match_scan(data, i, i)
}

proof fn lemma_match_scan_from(data: SimulationData, i: int, j: int)
    requires
        0 <= i <= j <= data.character_manager@.len(),
        forall|k: int| i <= k < j ==> !spec_is_valid_match(data, i, k),
    ensures
        spec_match_for(data, i) == spec_match_scan(data, i, j),
    decreases j - i,
{
    if j > i {
        lemma_match_scan_from(data, i, j - 1);
        assert(spec_match_scan(data, i, j - 1) == spec_match_scan(data, i, j));
    }
}

/// The id pairs that the mating pass records, scanning the first `n`
/// characters in id order: for each eligible character, the pair of its id
/// and its found mate's id, if one was found.
pub open spec fn spec_new_mates(data: SimulationData, n: int) -> Seq<(nat, nat)>
    decreases n,
{
    if n <= 0 {
        Seq::empty()
    } else {
        let rest = spec_new_mates(data, n - 1);
        let i = n - 1;
        if spec_can_become_mate(data, i) && spec_match_for(data, i) is Some {
            rest.push((i as nat, spec_match_for(data, i).unwrap() as nat))
        } else {
            rest
        }
    }
}

/// All id pairs that the mating pass records this tick.
pub open spec fn spec_mate_pairs(data: SimulationData) -> Seq<(nat, nat)> {
    spec_new_mates(data, data.character_manager@.len() as int)
}

/// The views of a list of id pairs.
pub open spec fn spec_pair_views(pairs: Seq<(CharacterId, CharacterId)>) -> Seq<(nat, nat)> {
    pairs.map_values(|pair: (CharacterId, CharacterId)| (pair.0@, pair.1@))
}

/// The adjacency lists after each pair, in order, is recorded as a symmetric
/// mate relation.
pub open spec fn spec_apply_mates(
    lists: Seq<Seq<CharacterRelationView>>,
    pairs: Seq<(nat, nat)>,
) -> Seq<Seq<CharacterRelationView>>
    decreases pairs.len(),
{
    if pairs.len() == 0 {
        lists
    } else {
        spec_add_between(
            spec_apply_mates(lists, pairs.drop_last()),
            pairs.last().0,
            pairs.last().1,
            CharacterRelationType::Mate,
        )
    }
}

proof fn lemma_match_scan_found(data: SimulationData, i: int, j0: int, j: int)
    requires
        0 <= j0,
        spec_match_scan(data, i, j0) == Some(j),
    ensures
        j0 <= j < data.character_manager@.len(),
        spec_is_valid_match(data, i, j),
    decreases data.character_manager@.len() - j0,
{
    if !spec_is_valid_match(data, i, j0) {
        lemma_match_scan_found(data, i, j0 + 1, j);
    }
}

/// Every pair that the mating pass records is a valid match: it joins an
/// eligible character to an eligible candidate of the same race and a
/// different gender, and the candidate's position is strictly greater, so no
/// pair is recorded twice within a tick.
pub proof fn lemma_mate_pairs_valid(data: SimulationData, n: int, k: int)
    requires
        n <= data.character_manager@.len(),
        0 <= k < spec_new_mates(data, n).len(),
    ensures
        ({
            let pair = spec_new_mates(data, n)[k];
            &&& pair.0 < pair.1 < data.character_manager@.len()
            &&& spec_can_become_mate(data, pair.0 as int)
            &&& spec_is_valid_match(data, pair.0 as int, pair.1 as int)
        }),
    decreases n,
{
    if n > 0 {
        let rest = spec_new_mates(data, n - 1);
        if k < rest.len() {
            lemma_mate_pairs_valid(data, n - 1, k);
        } else {
            let i = n - 1;
            let j = spec_match_for(data, i).unwrap();
            lemma_match_scan_found(data, i, i, j);
        }
    }
}

/// A character that already holds a mate relation is paired with nobody: it
/// appears in no recorded pair, on either side.
pub proof fn lemma_mated_character_not_paired(data: SimulationData, n: int, i: int, k: int)
    requires
        data.wf(),
        n <= data.character_manager@.len(),
        0 <= i < data.character_manager@.len(),
        spec_has_relation(data.relation_manager@, i as nat, CharacterRelationType::Mate),
        0 <= k < spec_new_mates(data, n).len(),
    ensures
        spec_new_mates(data, n)[k].0 != i,
        spec_new_mates(data, n)[k].1 != i,
{
    assert(data.character_manager@[i]@.id == i);
    assert(!spec_can_become_mate(data, i));
    lemma_mate_pairs_valid(data, n, k);
}

/// Is the character eligible for mating this tick?
fn can_become_mate(data: &SimulationData, character: &Character) -> (eligible: bool)
    requires
        data.wf(),
        character@.id < data.character_manager@.len(),
        data.character_manager@[character@.id as int] == *character,
    ensures
        eligible == spec_can_become_mate(*data, character@.id as int),
{
    character.is_alive() && data.race_manager.get_life_stage(character).reproduction().is_some()
        && !data.relation_manager.has_relation(character.id(), CharacterRelationType::Mate)
}

/// Does the candidate fit the character?
fn is_valid_match(data: &SimulationData, character: &Character, candidate: &Character) -> (fits:
    bool)
    requires
        data.wf(),
        character@.id < data.character_manager@.len(),
        data.character_manager@[character@.id as int] == *character,
        candidate@.id < data.character_manager@.len(),
        data.character_manager@[candidate@.id as int] == *candidate,
    ensures
        fits == spec_is_valid_match(*data, character@.id as int, candidate@.id as int),
{
    let same_race = character.race_id().id() == candidate.race_id().id();
    let same_gender = character.gender() == candidate.gender();
    same_race && !same_gender && can_become_mate(data, candidate)
}

/// The first character fitting this one, scanning forward from the
/// character's own id.
fn find_matching_character(data: &SimulationData, character: &Character) -> (found: Option<
    CharacterId,
>)
    requires
        data.wf(),
        character@.id < data.character_manager@.len(),
        data.character_manager@[character@.id as int] == *character,
    ensures
        match found {
            Some(id) => spec_match_for(*data, character@.id as int) == Some(id@ as int),
            None => spec_match_for(*data, character@.id as int) is None,
        },
{
    let count = data.character_manager.get_all().len();
    let start = character.id().id();
    let mut j = start;
    while j < count
        invariant
            data.wf(),
            start <= j <= count,
            count == data.character_manager@.len(),
            start == character@.id,
            character@.id < data.character_manager@.len(),
            data.character_manager@[character@.id as int] == *character,
            forall|k: int|
                start <= k < j ==> !spec_is_valid_match(*data, character@.id as int, k),
        decreases count - j,
    {
        let candidate = match data.character_manager.get(CharacterId::new(j)) {
            Some(candidate) => candidate,
            None => vstd::pervasive::unreached(),
        };
        if is_valid_match(data, character, candidate) {
            proof {
                lemma_match_scan_from(*data, character@.id as int, j as int);
            }
            return Some(candidate.id());
        }
        j = j + 1;
    }
    proof {
        lemma_match_scan_from(*data, character@.id as int, count as int);
    }
    None
}

/// Computes the new mate pairs of this tick as a pure scan, without mutating
/// anything: for each eligible character in id order, the first fitting
/// candidate from its own id forward. The match is greedy and first-found.
fn calculate_new_mates(data: &SimulationData) -> (pairs: Vec<(CharacterId, CharacterId)>)
    requires
        data.wf(),
    ensures
        spec_pair_views(pairs@) == spec_mate_pairs(*data),
{
    let mut pairs: Vec<(CharacterId, CharacterId)> = Vec::new();
    let count = data.character_manager.get_all().len();
    let mut i: usize = 0;
    proof {
        assert(spec_pair_views(pairs@) =~= spec_new_mates(*data, 0));
    }
    while i < count
        invariant
            data.wf(),
            0 <= i <= count,
            count == data.character_manager@.len(),
            spec_pair_views(pairs@) == spec_new_mates(*data, i as int),
        decreases count - i,
    {
        let character = match data.character_manager.get(CharacterId::new(i)) {
            Some(character) => character,
            None => vstd::pervasive::unreached(),
        };
        if can_become_mate(data, character) {
            match find_matching_character(data, character) {
                Some(other) => {
                    pairs.push((character.id(), other));
                    proof {
                        assert(spec_pair_views(pairs@) =~= spec_new_mates(*data, i + 1));
                    }
                },
                None => {},
            }
        }
        i = i + 1;
    }
    pairs
}

/// Simulates [`characters`](Character) finding mates: each pair the pure scan
/// found is committed to the relation store as a symmetric mate relation.
/// Everything else — the characters, the races and the date — stays
/// unchanged.
pub fn simulate_finding_mate(data: &mut SimulationData)
    requires
        old(data).wf(),
    ensures
        final(data).race_manager == old(data).race_manager,
        final(data).character_manager == old(data).character_manager,
        final(data).date == old(data).date,
        final(data).relation_manager@ == spec_apply_mates(
            old(data).relation_manager@,
            spec_mate_pairs(*old(data)),
        ),
        final(data).wf(),
{
    let pairs = calculate_new_mates(data);
    let ghost orig = *data;
    let ghost pair_views = spec_mate_pairs(orig);
    let mut k: usize = 0;
    proof {
        assert(pair_views.take(0) =~= Seq::<(nat, nat)>::empty());
    }
    while k < pairs.len()
        invariant
            0 <= k <= pairs.len(),
            spec_pair_views(pairs@) == pair_views,
            pairs@.len() == pair_views.len(),
            data.race_manager == orig.race_manager,
            data.character_manager == orig.character_manager,
            data.date == orig.date,
            data.relation_manager@ == spec_apply_mates(
                orig.relation_manager@,
                pair_views.take(k as int),
            ),
        decreases pairs.len() - k,
    {
        let pair = pairs[k];
        data.relation_manager.add_relation_between(pair.0, pair.1, CharacterRelationType::Mate);
        proof {
            assert(pair_views.take(k + 1).drop_last() =~= pair_views.take(k as int));
        }
        k = k + 1;
    }
    proof {
        assert(pair_views.take(pairs@.len() as int) =~= pair_views);
    }
}

} // verus!
