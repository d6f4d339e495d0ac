//! The registry of entities and the operations of the simulation on it.
//!
//! Entities are kept in the order of their creation and are never removed,
//! so the place of an entity in that order identifies it for good.

use vstd::prelude::*;
use crate::direction::{Key, SnakeDirection};
use crate::grid::{Position, Size, SPRITE_EXTENT};

verus! {

/// How often per second the snake moves one cell.
pub const MOVEMENT_STEPS_PER_SECOND: u32 = 5;

/// How often per second the world is looked over for missing food.
pub const FOOD_STEPS_PER_SECOND: u32 = 1;

/// What lives in the world: a snake's head or a piece of food, each with the
/// attributes that its kind carries.
#[derive(Clone, Copy, Debug, PartialEq, Eq, Structural)]
pub enum Entity {
    SnakeHead { position: Position, size: Size, direction: SnakeDirection },
    Food { position: Position, size: Size },
}

/// The entities of one simulation. At any time at most one of them is food.
#[derive(Debug)]
pub struct World {
    entities: Vec<Entity>,
}

impl Entity {
    /// The cell on which the entity stands.
    pub open spec fn cell(self) -> Position {
        match self {
            Entity::SnakeHead { position, .. } => position,
            Entity::Food { position, .. } => position,
        }
    }

    /// The extent of the entity.
    pub open spec fn extent(self) -> Size {
        match self {
            Entity::SnakeHead { size, .. } => size,
            Entity::Food { size, .. } => size,
        }
    }

    /// The entity after the steering rule has been applied to it: a head
    /// turns as the rule says, food is left alone.
    pub open spec fn steered(self, key: Option<Key>) -> Entity {
        match self {
            Entity::SnakeHead { position, size, direction } => Entity::SnakeHead {
                position,
                size,
                direction: direction.turned(key),
            },
            Entity::Food { .. } => self,
        }
    }

    /// Whether a movement tick can be applied to the entity: a head needs
    /// room for one step along its heading, food does not move.
    pub open spec fn can_advance(self) -> bool {
        match self {
            Entity::SnakeHead { position, direction, .. } => position.can_step(direction),
            Entity::Food { .. } => true,
        }
    }

    /// The entity after one movement tick: a head stands one cell further
    /// along its heading, food stays where it is.
    pub open spec fn advanced(self) -> Entity {
        match self {
            Entity::SnakeHead { position, size, direction } => Entity::SnakeHead {
                position: position.stepped(direction),
                size,
                direction,
            },
            Entity::Food { .. } => self,
        }
    }

    /// The cell on which the entity stands.
    pub fn position(&self) -> (position: Position)
        ensures
            position == self.cell(),
    {
        match self {
            Entity::SnakeHead { position, .. } => *position,
            Entity::Food { position, .. } => *position,
        }
    }

    /// The extent of the entity.
    pub fn size(&self) -> (size: Size)
        ensures
            size == self.extent(),
    {
        match self {
            Entity::SnakeHead { size, .. } => *size,
            Entity::Food { size, .. } => *size,
        }
    }
}

/// The snake's head as it enters the world: on cell (3, 3), four fifths of a
/// cell wide and high, heading up.
pub open spec fn initial_head() -> Entity {
    Entity::SnakeHead {
        position: Position { x: 3, y: 3 },
        size: Size { width: SPRITE_EXTENT, height: SPRITE_EXTENT },
        direction: SnakeDirection::UP,
    }
}

/// A piece of food on cell (`x`, `y`), four fifths of a cell wide and high.
pub open spec fn food_at(x: i32, y: i32) -> Entity {
    Entity::Food {
        position: Position { x, y },
        size: Size { width: SPRITE_EXTENT, height: SPRITE_EXTENT },
    }
}

/// Number of pieces of food among `entities`.
pub open spec fn count_food(entities: Seq<Entity>) -> nat
    decreases entities.len(),
{
    if entities.len() == 0 {
        0
    } else {
        count_food(entities.drop_last()) + if entities.last() is Food {
            1nat
        } else {
            0nat
        }
    }
}

/// The entities after one sampling of the input.
pub open spec fn steered(entities: Seq<Entity>, key: Option<Key>) -> Seq<Entity> {
    entities.map_values(|e: Entity| e.steered(key))
}

/// Whether every entity admits a movement tick.
pub open spec fn all_can_advance(entities: Seq<Entity>) -> bool {
    forall|i: int| 0 <= i < entities.len() ==> (#[trigger] entities[i]).can_advance()
}

/// The entities after one movement tick.
pub open spec fn advanced(entities: Seq<Entity>) -> Seq<Entity> {
    entities.map_values(|e: Entity| e.advanced())
}

/// The entities after one run of the food spawner that was handed the cell
/// (`x`, `y`): unchanged where there is food already, else with one piece of
/// food on that cell added at the end.
pub open spec fn with_food(entities: Seq<Entity>, x: i32, y: i32) -> Seq<Entity> {
    if count_food(entities) > 0 {
        entities
    } else {
        entities.push(food_at(x, y))
    }
}

proof fn lemma_count_food_push(entities: Seq<Entity>, e: Entity)
    ensures
        count_food(entities.push(e)) == count_food(entities) + if e is Food {
            1nat
        } else {
            0nat
        },
{
    assert(entities.push(e).drop_last() =~= entities);
}

proof fn lemma_count_food_same_kinds(a: Seq<Entity>, b: Seq<Entity>)
    requires
        a.len() == b.len(),
        forall|i: int| 0 <= i < a.len() ==> (a[i] is Food) == (b[i] is Food),
    ensures
        count_food(a) == count_food(b),
    decreases a.len(),
{
    if a.len() > 0 {
        lemma_count_food_same_kinds(a.drop_last(), b.drop_last());
    }
}

proof fn lemma_count_food_zero(entities: Seq<Entity>)
    ensures
        count_food(entities) == 0 <==> forall|i: int|
            0 <= i < entities.len() ==> !(#[trigger] entities[i] is Food),
    decreases entities.len(),
{
    if entities.len() > 0 {
        lemma_count_food_zero(entities.drop_last());
        if count_food(entities) == 0 {
            assert forall|i: int| 0 <= i < entities.len() implies !(#[trigger] entities[i]
                is Food) by {
                if i < entities.len() - 1 {
                    assert(entities.drop_last()[i] == entities[i]);
                }
            }
        } else if !(entities.last() is Food) {
            let i = choose|i: int|
                0 <= i < entities.drop_last().len() && #[trigger] entities.drop_last()[i]
                    is Food;
            assert(entities[i] is Food);
        }
    }
}

impl View for World {
    type V = Seq<Entity>;

    /// The entities in the order of their creation.
    closed spec fn view(&self) -> Seq<Entity> {
        self.entities@
    }
}

impl World {
    /// Holds of every world: food is created by the food spawner alone, and
    /// the spawner creates none where there is some.
    #[verifier::type_invariant]
    spec fn at_most_one_food(self) -> bool {
        count_food(self.entities@) <= 1
    }

    /// A world without entities.
    pub fn new() -> (world: World)
        ensures
            world@ == Seq::<Entity>::empty(),
    {
        World { entities: Vec::new() }
    }

    /// Number of entities.
    pub fn len(&self) -> (len: usize)
        ensures
            len == self@.len(),
    {
        self.entities.len()
    }

    /// The entity that was created as the `id`-th, counting from zero.
    pub fn get(&self, id: usize) -> (entity: Option<Entity>)
        ensures
            entity == if id < self@.len() {
                Some(self@[id as int])
            } else {
                None
            },
    {
        if id < self.entities.len() {
            Some(self.entities[id])
        } else {
            None
        }
    }

    /// Whether there is food in the world.
    pub fn has_food(&self) -> (found: bool)
        ensures
            found == (count_food(self@) > 0),
    {
        let n = self.entities.len();
        let mut i: usize = 0;
        while i < n
            invariant
                i <= n,
                n == self.entities@.len(),
                forall|j: int| 0 <= j < i ==> !(#[trigger] self.entities@[j] is Food),
            decreases n - i,
        {
            if let Entity::Food { .. } = self.entities[i] {
                proof {
                    lemma_count_food_zero(self.entities@);
                    assert(self.entities@[i as int] is Food);
                }
                return true;
            }
            i += 1;
        }
        proof {
            lemma_count_food_zero(self.entities@);
        }
        false
    }

    /// Number of pieces of food, which is never more than one.
    pub fn food_count(&self) -> (count: usize)
        ensures
            count == count_food(self@),
            count <= 1,
    {
        proof {
            use_type_invariant(self);
        }
        let n = self.entities.len();
        let mut count: usize = 0;
        let mut i: usize = 0;
        while i < n
            invariant
                i <= n,
                n == self.entities@.len(),
                count == count_food(self.entities@.take(i as int)),
                count <= i,
            decreases n - i,
        {
            proof {
                assert(self.entities@.take(i + 1).drop_last() =~= self.entities@.take(i as int));
            }
            if let Entity::Food { .. } = self.entities[i] {
                count += 1;
            }
            i += 1;
        }
        proof {
            assert(self.entities@.take(n as int) =~= self.entities@);
        }
        count
    }

    /// Whether every head has room for one step along its heading, which is
    /// what [`snake_movement`] asks of the world.
    pub fn heads_have_room(&self) -> (room: bool)
        ensures
            room == all_can_advance(self@),
    {
        let n = self.entities.len();
        let mut i: usize = 0;
        while i < n
            invariant
                i <= n,
                n == self.entities@.len(),
                forall|j: int| 0 <= j < i ==> (#[trigger] self.entities@[j]).can_advance(),
            decreases n - i,
        {
            if let Entity::SnakeHead { position, direction, .. } = self.entities[i] {
                if !position.has_room(direction) {
                    assert(!self.entities@[i as int].can_advance());
                    return false;
                }
            }
            i += 1;
        }
        true
    }
}

/// Creates the snake's head and returns the place under which the world
/// keeps it.
pub fn spawn_snake(world: &mut World) -> (id: usize)
    ensures
        final(world)@ == old(world)@.push(initial_head()),
        id == old(world)@.len(),
        count_food(final(world)@) == count_food(old(world)@),
{
    proof {
        use_type_invariant(&*world);
    }
    let mut entities = Vec::new();
    std::mem::swap(&mut entities, &mut world.entities);
    let id = entities.len();
    let head = Entity::SnakeHead {
        position: Position { x: 3, y: 3 },
        size: Size::square(SPRITE_EXTENT),
        direction: SnakeDirection::UP,
    };
    proof {
        lemma_count_food_push(entities@, head);
    }
    entities.push(head);
    world.entities = entities;
    id
}

/// Samples the input once: every head turns as the steering rule says for
/// `key`, the key taken from those that are held. Positions, sizes and food
/// are left as they are.
pub fn snake_input(world: &mut World, key: Option<Key>)
    ensures
        final(world)@ == steered(old(world)@, key),
        count_food(final(world)@) == count_food(old(world)@),
{
    proof {
        use_type_invariant(&*world);
    }
    let mut entities = Vec::new();
    std::mem::swap(&mut entities, &mut world.entities);
    let ghost before = entities@;
    let n = entities.len();
    let mut i: usize = 0;
    while i < n
        invariant
            i <= n,
            n == entities@.len(),
            before.len() == n,
            forall|j: int| 0 <= j < i ==> entities@[j] == (#[trigger] before[j]).steered(key),
            forall|j: int| i <= j < n ==> entities@[j] == #[trigger] before[j],
        decreases n - i,
    {
        if let Entity::SnakeHead { position, size, direction } = entities[i] {
            entities[i] = Entity::SnakeHead { position, size, direction: direction.turn(key) };
        }
        i += 1;
    }
    proof {
        assert(entities@ =~= steered(before, key));
        lemma_count_food_same_kinds(before, entities@);
    }
    world.entities = entities;
}

/// One movement tick: every head moves one cell along its heading. Headings,
/// sizes and food are left as they are; the arena's edge stops nobody.
pub fn snake_movement(world: &mut World)
    requires
        all_can_advance(old(world)@),
    ensures
        final(world)@ == advanced(old(world)@),
        count_food(final(world)@) == count_food(old(world)@),
{
    proof {
        use_type_invariant(&*world);
    }
    let mut entities = Vec::new();
    std::mem::swap(&mut entities, &mut world.entities);
    let ghost before = entities@;
    let n = entities.len();
    let mut i: usize = 0;
    while i < n
        invariant
            i <= n,
            n == entities@.len(),
            before.len() == n,
            all_can_advance(before),
            forall|j: int| 0 <= j < i ==> entities@[j] == (#[trigger] before[j]).advanced(),
            forall|j: int| i <= j < n ==> entities@[j] == #[trigger] before[j],
        decreases n - i,
    {
        if let Entity::SnakeHead { position, size, direction } = entities[i] {
            assert(before[i as int].can_advance());
            entities[i] = Entity::SnakeHead { position: position.step(direction), size, direction };
        }
        i += 1;
    }
    proof {
        assert(entities@ =~= advanced(before));
        lemma_count_food_same_kinds(before, entities@);
    }
    world.entities = entities;
}

/// One run of the food spawner, handed the cell (`x`, `y`) that was drawn for
/// this run. Where the world holds food already nothing happens and `None`
/// is returned; else one piece of food is created on that cell and the place
/// under which the world keeps it is returned. Afterwards the world holds
/// exactly one piece of food.
pub fn food_spawner(world: &mut World, x: i32, y: i32) -> (spawned: Option<usize>)
    ensures
        final(world)@ == with_food(old(world)@, x, y),
        match spawned {
            Some(id) => count_food(old(world)@) == 0 && id == old(world)@.len(),
            None => count_food(old(world)@) > 0,
        },
        count_food(final(world)@) == 1,
{
    proof {
        use_type_invariant(&*world);
    }
    if world.has_food() {
        return None;
    }
    let mut entities = Vec::new();
    std::mem::swap(&mut entities, &mut world.entities);
    let food = Entity::Food { position: Position { x, y }, size: Size::square(SPRITE_EXTENT) };
    let id = entities.len();
    proof {
        lemma_count_food_push(entities@, food);
    }
    entities.push(food);
    world.entities = entities;
    Some(id)
}

/// Running the food spawner a second time changes nothing, whichever cells
/// the two runs were handed: after the first run there is food, and with
/// food present the spawner creates none.
pub proof fn lemma_food_spawner_idempotent(
    entities: Seq<Entity>,
    x1: i32,
    y1: i32,
    x2: i32,
    y2: i32,
)
    ensures
        count_food(with_food(entities, x1, y1)) > 0,
        with_food(with_food(entities, x1, y1), x2, y2) == with_food(entities, x1, y1),
{
    lemma_count_food_push(entities, food_at(x1, y1));
}

/// Among entities of which at most one is food, exactly one is food after
/// one run of the food spawner and after any number of further runs: two
/// pieces of food never come to exist.
pub proof fn lemma_food_spawner_keeps_one(
    entities: Seq<Entity>,
    x1: i32,
    y1: i32,
    x2: i32,
    y2: i32,
)
    requires
        count_food(entities) <= 1,
    ensures
        count_food(with_food(entities, x1, y1)) == 1,
        count_food(with_food(with_food(entities, x1, y1), x2, y2)) == 1,
{
    lemma_count_food_push(entities, food_at(x1, y1));
    lemma_food_spawner_idempotent(entities, x1, y1, x2, y2);
}

} // verus!
