use vstd::prelude::*;

verus! {

/// The two game modes of Future Cop.
#[derive(Debug, Clone, Copy, PartialEq, Eq, Structural)]
pub enum GameMode {
    CrimeWar,
    PrecinctAssault,
}

} // verus!
