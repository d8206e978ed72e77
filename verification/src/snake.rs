//! The snake: a chain of cells from head to tail, and the operations that
//! grow it, shrink it and move it inside its field.

use vstd::prelude::*;
pub use crate::grid::{Coord, Direction, FieldSize, SnakeError};

verus! {

/// A possibly empty chain of body cells; each cell owns the one behind it.
pub type SnakeBodyNode = Option<Box<Node>>;

/// One body cell together with the rest of the body towards the tail.
pub struct Node {
    data: Coord,
    next: SnakeBodyNode,
}

/// The cells of a chain, front first; an empty chain has none.
pub open spec fn chain_cells(chain: SnakeBodyNode) -> Seq<Coord>
    decreases chain,
{
    match chain {
        None => Seq::empty(),
        Some(node) => node.cells(),
    }
}

impl View for Node {
    type V = Seq<Coord>;

    /// The cells of the chain that starts at this node, front first.
    open spec fn view(&self) -> Seq<Coord> {
        self.cells()
    }
}

impl Clone for Node {
    /// Copies the whole chain that starts at this node.
    fn clone(&self) -> (copy: Node)
        ensures
            copy == *self,
        decreases self,
    {
        Node {
            data: self.data,
            next: (match &self.next {
                Some(node) => Some(Box::new((&**node).clone())),
                None => None,
            }),
        }
    }
}

impl Node {
    /// The cell of this node followed by the cells behind it.
    pub closed spec fn cells(&self) -> Seq<Coord>
        decreases self,
    {
        seq![self.data] + chain_cells(self.next)
    }

    /// A node on `data` with the chain `next` behind it.
    pub fn new(data: Coord, next: SnakeBodyNode) -> (node: Node)
        ensures
            node@ == seq![data] + chain_cells(next),
    {
        Node { data, next }
    }

    /// A node has its own cell and, behind it, the cells of its chain.
    proof fn lemma_cells_len(&self)
        ensures
            self@.len() == 1 + chain_cells(self.next).len(),
            self@[0] == self.data,
    {
    }

    /// Cuts the last cell off a chain of two cells or more.
    fn drop_last(&mut self)
        requires
            old(self).cells().len() > 1,
        ensures
            final(self).cells() == old(self).cells().drop_last(),
    {
        let ghost whole = self.cells();
        let ghost mut front: Seq<Coord> = Seq::empty();
        let ghost at_end: Node = *final(self);
        let mut cursor: &mut Node = self;
        loop
            invariant_except_break
                cursor.cells().len() > 1,
                front + cursor.cells() == whole,
            invariant
                at_end.cells() == front + final(cursor).cells(),
            ensures
                at_end.cells() == whole.drop_last(),
            decreases cursor.cells().len(),
        {
            let ends_behind: bool = match &cursor.next {
                Some(behind) => behind.next.is_none(),
                None => true,
            };
            proof {
                cursor.lemma_cells_len();
                cursor.next.unwrap().lemma_cells_len();
            }
            if ends_behind {
                assert(front + seq![cursor.data] =~= whole.drop_last());
                cursor.next = None;
                assert(cursor.cells() =~= seq![cursor.data]);
                break ;
            }
            proof {
                cursor.next.unwrap().next.unwrap().lemma_cells_len();
                assert(front.push(cursor.data) + cursor.next.unwrap().cells() =~= front
                    + cursor.cells());
                front = front.push(cursor.data);
            }
            let ghost here: Coord = cursor.data;
            let ghost rest_at_end: Node = *final(cursor);
            let behind: &mut Box<Node> = cursor.next.as_mut().unwrap();
            assert(rest_at_end.cells() =~= seq![here] + final(behind).cells());
            cursor = &mut **behind;
        }
    }

    /// A chain that starts with `data` and goes on with `next`.
    pub fn gen_snake_body_node(data: Coord, next: SnakeBodyNode) -> (chain: SnakeBodyNode)
        ensures
            chain is Some,
            chain_cells(chain) == seq![data] + chain_cells(next),
    {
        Some(Box::new(Node { data, next }))
    }
}

/// Speed of a freshly spawned snake.
pub const DEFAULT_SPEED: u32 = 12;

/// A snake inside its field.
pub struct Snake {
    /// The body cells as a chain, the head's cell in front.
    pub head: SnakeBodyNode,
    /// Number of body cells.
    pub size: u32,
    /// The heading of the last turn.
    pub direction: Direction,
    /// Kept for the driver; no operation here reads it.
    pub speed: u32,
    /// The field the snake was spawned into.
    pub field_size: FieldSize,
}

impl View for Snake {
    type V = Seq<Coord>;

    /// The body cells from head to tail.
    open spec fn view(&self) -> Seq<Coord> {
        chain_cells(self.head)
    }
}

impl Clone for Snake {
    fn clone(&self) -> (copy: Snake)
        ensures
            copy == *self,
    {
        Snake {
            head: (match &self.head {
                Some(node) => Some(Box::new((&**node).clone())),
                None => None,
            }),
            size: self.size,
            direction: self.direction,
            speed: self.speed,
            field_size: self.field_size,
        }
    }
}

impl Snake {
    /// A snake is valid when its field is valid, its body is not empty and
    /// `size` counts the body cells.
    pub open spec fn wf(&self) -> bool {
        &&& self.field_size.wf()
        &&& self@.len() >= 1
        &&& self@.len() == self.size
    }

    /// The cell the head is on.
    pub open spec fn head_cell(&self) -> Coord {
        self@[0]
    }

    /// The cell the head would reach by one step in `direction`, if its
    /// indices can be represented.
    pub open spec fn head_after(&self, direction: Direction) -> Option<Coord> {
        self.head_cell().spec_shifted(direction)
    }

    /// Whether one step in `direction` keeps the head inside the field.
    pub open spec fn can_advance(&self, direction: Direction) -> bool {
        self.head_after(direction) matches Some(cell) && cell.spec_within(self.field_size)
    }

    /// Whether this snake is the one that is spawned into `field_size`: one
    /// cell on the middle of the field, heading up, at the default speed.
    pub open spec fn is_spawn_of(&self, field_size: FieldSize) -> bool {
        &&& self@ == seq![Coord::spec_centered(field_size)]
        &&& self.size == 1
        &&& self.direction == Direction::UP
        &&& self.speed == DEFAULT_SPEED
        &&& self.field_size == field_size
    }

    /// Whether `after` is this snake grown by one cell: a new head one step
    /// ahead in the current direction, the whole old body behind it.
    pub open spec fn grows_into(&self, after: Snake) -> bool {
        &&& self.head_after(self.direction) matches Some(cell) && after@ == seq![cell] + self@
        &&& after.size == self.size + 1
        &&& after.direction == self.direction
        &&& after.speed == self.speed
        &&& after.field_size == self.field_size
    }

    /// Whether `after` is this snake without its tail cell, or this snake
    /// itself where it has a single cell.
    pub open spec fn shrinks_into(&self, after: Snake) -> bool {
        &&& if self.size > 1 {
            after@ == self@.drop_last() && after.size == self.size - 1
        } else {
            after@ == self@ && after.size == self.size
        }
        &&& after.direction == self.direction
        &&& after.speed == self.speed
        &&& after.field_size == self.field_size
    }

    /// Whether a move towards `direction` turns this snake into `after` and
    /// reports `outcome`. The snake turns in any case. Where the step keeps
    /// the head inside the field, the head advances and the tail cell is
    /// given up; else the body stays and a collision is reported.
    pub open spec fn moves_into(
        &self,
        direction: Direction,
        after: Snake,
        outcome: Result<(), SnakeError>,
    ) -> bool {
        &&& if self.can_advance(direction) {
            outcome is Ok && after@ == seq![self.head_after(direction).unwrap()]
                + self@.drop_last()
        } else {
            outcome == Err::<(), SnakeError>(SnakeError::BoundaryCollision) && after@ == self@
        }
        &&& after.size == self.size
        &&& after.direction == direction
        &&& after.speed == self.speed
        &&& after.field_size == self.field_size
    }

    /// A snake of one cell on the middle of the field, heading up.
    pub fn spawn(field_size: FieldSize) -> (snake: Snake)
        requires
            field_size.wf(),
        ensures
            snake.wf(),
            snake.is_spawn_of(field_size),
    {
        Snake {
            head: Node::gen_snake_body_node(Coord::centered(field_size), None),
            size: 1,
            direction: Direction::UP,
            speed: DEFAULT_SPEED,
            field_size,
        }
    }

    /// The body cells from head to tail, for drawing.
    pub fn get_movement_data(&self) -> (cells: Vec<Coord>)
        ensures
            cells@ == self@,
            self.wf() ==> cells@.len() == self.size,
    {
        let mut cells: Vec<Coord> = Vec::with_capacity(100);
        let mut rest: &SnakeBodyNode = &self.head;
        loop
            invariant
                cells@ + chain_cells(*rest) == self@,
            ensures
                cells@ == self@,
            decreases chain_cells(*rest).len(),
        {
            match rest {
                Some(node) => {
                    assert(cells@.push(node.data) + chain_cells(node.next) =~= cells@
                        + chain_cells(*rest));
                    cells.push(node.data);
                    rest = &node.next;
                },
                None => {
                    assert(cells@ + chain_cells(*rest) =~= cells@);
                    break ;
                },
            }
        }
        cells
    }

    /// The cell the head would occupy after one step in the current
    /// direction; `None` where the step leaves the range of the indices.
    pub fn next_head_coord(&self) -> (next: Option<Coord>)
        requires
            self.wf(),
        ensures
            next == self.head_after(self.direction),
    {
        match &self.head {
            Some(node) => node.data.shifted(self.direction),
            None => None,
        }
    }

    /// Puts a new head one step ahead of the old one, in the current
    /// direction, and keeps the whole old body behind it. No boundary of the
    /// field is looked at.
    pub fn grow_snake(&mut self)
        requires
            old(self).wf(),
            old(self).size < u32::MAX,
            old(self).head_after(old(self).direction) is Some,
        ensures
            final(self).wf(),
            old(self).grows_into(*final(self)),
    {
        match self.next_head_coord() {
            Some(cell) => {
                let rest_of_snake_body: SnakeBodyNode = self.head.take();
                self.head = Node::gen_snake_body_node(cell, rest_of_snake_body);
                self.size += 1;
            },
            None => {},
        }
    }

    /// Removes the tail cell of a snake that has more than one cell; a snake
    /// of one cell stays as it is.
    pub fn reduce_snake_by_one(&mut self)
        requires
            old(self).wf(),
        ensures
            final(self).wf(),
            old(self).shrinks_into(*final(self)),
    {
        if self.size > 1 {
            match &mut self.head {
                Some(node) => {
                    node.drop_last();
                },
                None => {},
            }
            self.size -= 1;
        }
    }

    /// Turns the snake to `direction` and moves it one cell that way, unless
    /// the head would leave the field. A step that cannot be represented in
    /// the indices leaves the field like any other.
    pub fn move_snake(&mut self, direction: Direction) -> (outcome: Result<(), SnakeError>)
        requires
            old(self).wf(),
        ensures
            final(self).wf(),
            old(self).moves_into(direction, *final(self), outcome),
    {
        self.direction = direction;
        match self.next_head_coord() {
            Some(cell) => {
                if cell.within(self.field_size) {
                    let rest_of_snake_body: SnakeBodyNode = self.head.take();
                    let mut longer: Box<Node> = Box::new(Node::new(cell, rest_of_snake_body));
                    longer.drop_last();
                    assert(longer.cells() =~= seq![cell] + old(self)@.drop_last());
                    self.head = Some(longer);
                    Ok(())
                } else {
                    Err(SnakeError::BoundaryCollision)
                }
            },
            None => Err(SnakeError::BoundaryCollision),
        }
    }
}

} // verus!
