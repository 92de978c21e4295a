use vstd::prelude::*;

pub mod facts;
pub mod interval;
pub mod pitch;
pub mod scale;
pub mod tables;

verus! {

/// The error returned when a lookup key falls outside its fixed domain:
/// a note name outside the twelve canonical spellings, an interval name
/// outside the six known intervals, or a mode name outside the seven
/// Greek modes.
#[derive(Clone, Copy, Debug, PartialEq, Eq, Structural)]
pub enum TheoryError {
    UnknownNote,
    UnknownInterval,
    UnknownMode,
}

} // verus!
