//! A generational handle store: values live in slots of a growable array and
//! are reached through copyable handles (slot index and generation). Freed
//! slots are recycled through a free list; slot 0 is a sentinel that never
//! holds a live value, so a handle with index 0 stands for "no handle".

mod alive_iter;
mod handle;
mod handle_array;
mod laws;

pub use alive_iter::{HandleArrayIter, HandleArrayIterMut};
pub use handle::{Handle, decimal_text};
pub use handle_array::{HandleArray, IHandleArrayItem, occupied_weight, positions_from};
pub use laws::{lemma_alive_count, lemma_alive_count_steps, lemma_alive_positions, lemma_positions_from, lemma_round_trip, lemma_slot_reuse, lemma_update_keeps_wf};
