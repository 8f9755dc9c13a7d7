use vstd::prelude::*;

verus! {

/// The one failure this library reports: the division counts handed in
/// cannot form a vertex grid whose rows pair into triangle strips
/// (a division count of zero is degenerate).
#[derive(Clone, Copy, Debug, PartialEq, Eq, Structural)]
pub enum TerrainError {
    InvalidGrid,
}

} // verus!
