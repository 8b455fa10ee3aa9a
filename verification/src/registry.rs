use vstd::prelude::*;

use crate::errors::GraphError;

verus! {

/// An entity of the registry: a participant of the network, carrying a
/// display label. Immutable after creation.
pub struct Fighter {
    name: String,
}

impl View for Fighter {
    type V = Seq<char>;

    closed spec fn view(&self) -> Seq<char> {
        self.name@
    }
}

impl Fighter {
    /// Creates an entity with the given display label.
    pub fn new(name: &str) -> (f: Fighter)
        ensures
            f@ == name@,
    {
        Fighter { name: name.to_owned() }
    }

    /// The display label this entity carries.
    pub fn name(&self) -> (r: &String)
        ensures
            r@ == self@,
    {
        &self.name
    }
}

/// Holds the entities of the network and issues their identifiers. The
/// identifier of an entity is its position in insertion order; once issued it
/// is stable for the life of the registry, since entities are never removed.
pub struct EntityRegistry {
    entities: Vec<Fighter>,
}

impl View for EntityRegistry {
    type V = Seq<Seq<char>>;

    /// The labels of the registered entities, in insertion order; the entity
    /// with identifier `i` carries the label at position `i`.
    closed spec fn view(&self) -> Seq<Seq<char>> {
        self.entities@.map_values(|f: Fighter| f@)
    }
}

impl EntityRegistry {
    /// A registry with no entities.
    pub fn new() -> (r: EntityRegistry)
        ensures
            r@ == Seq::<Seq<char>>::empty(),
    {
        let r = EntityRegistry { entities: Vec::new() };
        proof {
            assert(r@ =~= Seq::<Seq<char>>::empty());
        }
        r
    }

    /// How many entities have been registered.
    pub fn len(&self) -> (n: usize)
        ensures
            n == self@.len(),
    {
        self.entities.len()
    }

    /// Registers a new entity with the given label and returns its freshly
    /// issued identifier. Labels may repeat; there is no error condition.
    pub fn add(&mut self, label: &str) -> (id: u64)
        ensures
            final(self)@ == old(self)@.push(label@),
            id == old(self)@.len(),
    {
        let id = self.entities.len() as u64;
        self.entities.push(Fighter::new(label));
        proof {
            assert(self@ =~= old(self)@.push(label@));
        }
        id
    }

    /// The label of the entity with the given identifier, or `NotFound` if
    /// this registry never issued that identifier.
    pub fn get_label(&self, id: u64) -> (r: Result<String, GraphError>)
        ensures
            id < self@.len() ==> (r matches Ok(l) && l@ == self@[id as int]),
            id >= self@.len() ==> r == Err::<String, GraphError>(GraphError::NotFound),
    {
        if id < self.entities.len() as u64 {
            let f = &self.entities[id as usize];
            Ok(f.name.clone())
        } else {
            Err(GraphError::NotFound)
        }
    }
}

} // verus!
