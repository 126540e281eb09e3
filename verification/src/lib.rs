//! An in-process, unidirectional byte pipe for cooperative tasks: a write
//! handle and a read handle share one bounded buffer behind a lock and wake
//! each other when progress becomes possible.
//!
//! * `model` describes the channel state and every operation on it as
//!   mathematics; `laws` proves what follows for whole histories.
//! * `state` is the channel state itself, each operation proved to do what
//!   the model says.
//! * `writer` and `reader` are the two handles: they take the lock and run
//!   one operation of `state` under it.
//! * `sync` holds what is taken on trust from the standard library.
//! * `outcome` holds the answers that an attempt can give.

pub mod laws;
pub mod model;
pub mod outcome;
pub mod reader;
pub mod state;
pub mod sync;
pub mod writer;

pub use crate::outcome::{Attempt, PipeError};
pub use crate::reader::PipeReader;
pub use crate::state::{State, BUFFER_SIZE};
pub use crate::writer::PipeWriter;

use crate::model::PipeModel;
use crate::sync::{made_around, new_lock, share};
use std::sync::Arc;
use vstd::prelude::*;

verus! {

/// Creates a pipe whose buffer holds at most `capacity` bytes: the two
/// handles share one lock, and that lock was made around a fresh state,
/// empty and open, with no wakers and room for `capacity` bytes.
pub fn pipe_with_capacity(capacity: usize) -> (ends: (PipeWriter, PipeReader))
    ensures
        ends.0.channel() == ends.1.channel(),
        made_around(ends.0.channel()) == PipeModel::fresh(capacity as nat),
{
    let shared_state = Arc::new(new_lock(State::new(capacity)));
    let w = PipeWriter::attach(share(&shared_state));
    let r = PipeReader::attach(shared_state);
    (w, r)
}

/// Creates a pipe with the default capacity, `BUFFER_SIZE` bytes: the two
/// handles share one lock, and that lock was made around a fresh state,
/// empty and open, with no wakers.
pub fn pipe() -> (ends: (PipeWriter, PipeReader))
    ensures
        ends.0.channel() == ends.1.channel(),
        made_around(ends.0.channel()) == PipeModel::fresh(BUFFER_SIZE as nat),
{
    pipe_with_capacity(BUFFER_SIZE)
}

} // verus!
