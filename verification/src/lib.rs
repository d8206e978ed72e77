//! Movement core of a snake game: grid coordinates, the field, and the snake's
//! body with growth, shrinking and boundary-checked movement.

pub mod grid;
pub mod laws;
pub mod snake;
