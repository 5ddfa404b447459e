//! Live, in-process state of one shared drawing canvas: identifiers, chunk
//! coordinates, participant sessions and the `Wall` aggregate.

mod text;

pub mod ids;
pub mod spatial;
pub mod session;
pub mod chunk;
pub mod wall;

mod shared;
