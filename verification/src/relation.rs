//! Relations between characters: a symmetric graph of named edges.

use crate::character::CharacterId;
use vstd::prelude::*;

verus! {

/// The type of a [`relationship`](CharacterRelation) between 2
/// [`Characters`](crate::character::Character).
#[derive(Clone, Copy, Debug, Eq, PartialEq, Structural)]
pub enum CharacterRelationType {
    Mate,
}

/// One directed entry of a relationship between 2
/// [`Characters`](crate::character::Character): the character it points to,
/// and the type of the relationship.
#[derive(Clone, Copy, Debug, Eq, PartialEq, Structural)]
pub struct CharacterRelation {
    id: CharacterId,
    relation_type: CharacterRelationType,
}

/// The mathematical content of a [`CharacterRelation`].
pub ghost struct CharacterRelationView {
    pub target: nat,
    pub relation_type: CharacterRelationType,
}

impl View for CharacterRelation {
    type V = CharacterRelationView;

    closed spec fn view(&self) -> CharacterRelationView {
        CharacterRelationView { target: self.id@, relation_type: self.relation_type }
    }
}

impl CharacterRelation {
    pub fn target(&self) -> (target: CharacterId)
        ensures
            target@ == self@.target,
    {
        self.id
    }

    pub fn relation_type(&self) -> (relation_type: CharacterRelationType)
        ensures
            relation_type == self@.relation_type,
    {
        self.relation_type
    }
}

/// The views of a list of relation entries.
pub open spec fn spec_relation_views(relations: Seq<CharacterRelation>) -> Seq<
    CharacterRelationView,
> {
    relations.map_values(|relation: CharacterRelation| relation@)
}

/// The adjacency lists, grown with empty lists until they cover `n`
/// characters. Lists that already cover `n` characters stay unchanged.
pub open spec fn spec_grow(
    lists: Seq<Seq<CharacterRelationView>>,
    n: int,
) -> Seq<Seq<CharacterRelationView>> {
    if lists.len() >= n {
        lists
    } else {
        lists + Seq::new((n - lists.len()) as nat, |i: int| Seq::empty())
    }
}

/// The adjacency lists with one directed entry appended to the list of
/// `from`; lists without a list for `from` stay unchanged.
pub open spec fn spec_add_one(
    lists: Seq<Seq<CharacterRelationView>>,
    from: int,
    relation: CharacterRelationView,
) -> Seq<Seq<CharacterRelationView>> {
    if 0 <= from < lists.len() {
        lists.update(from, lists[from].push(relation))
    } else {
        lists
    }
}

/// The adjacency lists after a relation between `id0` and `id1` is recorded:
/// the lists grow to cover both ids, then an entry toward `id1` is appended
/// to `id0`'s list and an entry toward `id0` to `id1`'s list.
pub open spec fn spec_add_between(
    lists: Seq<Seq<CharacterRelationView>>,
    id0: nat,
    id1: nat,
    relation_type: CharacterRelationType,
) -> Seq<Seq<CharacterRelationView>> {
    let cover: int = if id0 >= id1 {
        (id0 + 1) as int
    } else {
        (id1 + 1) as int
    };
    spec_add_one(
        spec_add_one(
            spec_grow(lists, cover),
            id0 as int,
            CharacterRelationView { target: id1, relation_type },
        ),
        id1 as int,
        CharacterRelationView { target: id0, relation_type },
    )
}

/// The types of the relation entries of `list` that point to `target`, in
/// list order.
pub open spec fn spec_types_toward(list: Seq<CharacterRelationView>, target: nat) -> Seq<
    CharacterRelationType,
>
    decreases list.len(),
{
    if list.len() == 0 {
        Seq::empty()
    } else {
        let rest = spec_types_toward(list.drop_last(), target);
        if list.last().target == target {
            rest.push(list.last().relation_type)
        } else {
            rest
        }
    }
}

/// All relation types recorded from `id0` toward `id1`: empty, if either id
/// is unknown or unrelated.
pub open spec fn spec_relations_between(
    lists: Seq<Seq<CharacterRelationView>>,
    id0: nat,
    id1: nat,
) -> Seq<CharacterRelationType> {
    if id0 < lists.len() {
        spec_types_toward(lists[id0 as int], id1)
    } else {
        Seq::empty()
    }
}

/// Does the adjacency list of `id` hold any entry of this type?
pub open spec fn spec_has_relation(
    lists: Seq<Seq<CharacterRelationView>>,
    id: nat,
    relation_type: CharacterRelationType,
) -> bool {
    id < lists.len() && exists|k: int|
        0 <= k < lists[id as int].len() && lists[id as int][k].relation_type == relation_type
}

/// Stores the [`relations`](CharacterRelation) between all
/// [`Characters`](crate::character::Character) as adjacency lists indexed by
/// character id, grown lazily to cover the largest id seen.
#[derive(Debug)]
pub struct CharacterRelationMgr {
    relations: Vec<Vec<CharacterRelation>>,
}

impl View for CharacterRelationMgr {
    type V = Seq<Seq<CharacterRelationView>>;

    closed spec fn view(&self) -> Seq<Seq<CharacterRelationView>> {
        self.relations@.map_values(|list: Vec<CharacterRelation>| spec_relation_views(list@))
    }
}

impl Default for CharacterRelationMgr {
    /// The default store holds no relations.
    fn default() -> (manager: Self)
        ensures
            manager@ == Seq::<Seq<CharacterRelationView>>::empty(),
    {
        let manager = CharacterRelationMgr { relations: Vec::new() };
        proof {
            assert(manager@ =~= Seq::<Seq<CharacterRelationView>>::empty());
        }
        manager
    }
}

impl CharacterRelationMgr {
    /// Records a relation between 2 [`Characters`](crate::character::Character):
    /// always symmetric, never deduplicated.
    pub fn add_relation_between(
        &mut self,
        id0: CharacterId,
        id1: CharacterId,
        relation_type: CharacterRelationType,
    )
        ensures
            final(self)@ == spec_add_between(old(self)@, id0@, id1@, relation_type),
    {
        self.check_size_for_both(id0, id1);
        self.add_relation(id0, id1, relation_type);
        self.add_relation(id1, id0, relation_type);
    }

    /// Appends the directed entry from `id0` toward `id1`, if `id0`'s list
    /// exists.
    fn add_relation(
        &mut self,
        id0: CharacterId,
        id1: CharacterId,
        relation_type: CharacterRelationType,
    )
        ensures
            final(self)@ == spec_add_one(
                old(self)@,
                id0@ as int,
                CharacterRelationView { target: id1@, relation_type },
            ),
    {
        if id0.id() < self.relations.len() {
            self.relations[id0.id()].push(CharacterRelation { id: id1, relation_type });
            proof {
                assert(self@ =~~= spec_add_one(
                    old(self)@,
                    id0@ as int,
                    CharacterRelationView { target: id1@, relation_type },
                ));
            }
        }
    }

    /// Returns all [`relation`](CharacterRelation) types recorded from one
    /// [`Character`](crate::character::Character) toward another: empty, not
    /// an error, if either id is unknown or unrelated.
    pub fn get_relations_between(&self, id0: CharacterId, id1: CharacterId) -> (types: Vec<
        CharacterRelationType,
    >)
        ensures
            types@ == spec_relations_between(self@, id0@, id1@),
    {
        let mut types: Vec<CharacterRelationType> = Vec::new();
        if id0.id() >= self.relations.len() {
            return types;
        }
        let list = &self.relations[id0.id()];
        let ghost view = spec_relation_views(list@);
        let mut k: usize = 0;
        while k < list.len()
            invariant
                0 <= k <= list.len(),
                view == spec_relation_views(list@),
                view.len() == list@.len(),
                types@ == spec_types_toward(view.take(k as int), id1@),
            decreases list.len() - k,
        {
            let relation = &list[k];
            proof {
                assert(view.take(k + 1).drop_last() =~= view.take(k as int));
                assert(view.take(k + 1).last() == view[k as int]);
            }
            if relation.target().id() == id1.id() {
                types.push(relation.relation_type());
            }
            k = k + 1;
        }
        proof {
            assert(view.take(list@.len() as int) =~= view);
        }
        types
    }

    /// Returns all [`relations`](CharacterRelation) of a
    /// [`Character`](crate::character::Character): an empty slice for an id
    /// that was never covered.
    pub fn get_relations_of(&self, id: CharacterId) -> (relations: &[CharacterRelation])
        ensures
            spec_relation_views(relations@) == if id@ < self@.len() {
                self@[id@ as int]
            } else {
                Seq::<CharacterRelationView>::empty()
            },
    {
        let result: &[CharacterRelation] = if id.id() < self.relations.len() {
            self.relations[id.id()].as_slice()
        } else {
            &[]
        };
        proof {
            if id@ >= self@.len() {
                assert(spec_relation_views(result@) =~= Seq::<CharacterRelationView>::empty());
            }
        }
        result
    }

    /// Has the [`character`](crate::character::Character) a
    /// [`relation`](CharacterRelation) of a specific
    /// [`type`](CharacterRelationType)?
    pub fn has_relation(&self, id: CharacterId, relation_type: CharacterRelationType) -> (found:
        bool)
        ensures
            found == spec_has_relation(self@, id@, relation_type),
    {
        if id.id() >= self.relations.len() {
            return false;
        }
        let list = &self.relations[id.id()];
        let ghost view = spec_relation_views(list@);
        let mut k: usize = 0;
        while k < list.len()
            invariant
                0 <= k <= list.len(),
                view == spec_relation_views(list@),
                view.len() == list@.len(),
                id@ < self@.len(),
                view == self@[id@ as int],
                forall|j: int| 0 <= j < k ==> view[j].relation_type != relation_type,
            decreases list.len() - k,
        {
            if list[k].relation_type() == relation_type {
                proof {
                    assert(self@[id@ as int][k as int].relation_type == relation_type);
                }
                return true;
            }
            k = k + 1;
        }
        false
    }

    /// Makes sure that the lists cover both characters.
    fn check_size_for_both(&mut self, id0: CharacterId, id1: CharacterId)
        ensures
            final(self)@ == spec_grow(
                old(self)@,
                if id0@ >= id1@ {
                    id0@ + 1int
                } else {
                    id1@ + 1int
                },
            ),
    {
        let larger = if id0.id() >= id1.id() {
            id0.id()
        } else {
            id1.id()
        };
        self.check_size(larger);
    }

    /// Makes sure that the lists cover a character id.
    pub fn check_size(&mut self, min_size: usize)
        ensures
            final(self)@ == spec_grow(old(self)@, min_size + 1),
    {
        let ghost orig = self@;
        let ghost orig_lists = self.relations@;
        while self.relations.len() <= min_size
            invariant
                orig_lists.len() <= self.relations@.len(),
                self.relations@.len() <= orig_lists.len() || self.relations@.len() <= min_size
                    + 1,
                forall|i: int| 0 <= i < orig_lists.len() ==> self.relations@[i] == orig_lists[i],
                forall|i: int|
                    orig_lists.len() <= i < self.relations@.len() ==> self.relations@[i]@.len()
                        == 0,
            decreases min_size + 1 - self.relations.len(),
        {
            self.relations.push(Vec::new());
        }
        proof {
            assert(self@ =~~= spec_grow(orig, min_size + 1));
        }
    }
}

} // verus!
