//! A worker that turns each chunk of the counting source into items.

use crate::source::{get_data, DATA_CHUNKS};
use vstd::prelude::*;

verus! {

/// The number of items that the worker makes of one chunk.
pub const ITEMS_PER_CHUNK: u64 = 2;

/// A worker.
pub struct Proc {}

impl Proc {
    /// A worker. There is nothing to configure: all workers are alike.
    pub fn create() -> (worker: Proc)
        ensures
            worker == (Proc {  }),
    {
        Proc {  }
    }

    /// The items that the worker makes of a chunk: always the same two.
    pub fn process(&self, data: &[u8]) -> (items: Vec<String>)
        ensures
            items@.len() == ITEMS_PER_CHUNK,
            items@[0]@ == "item1"@,
            items@[1]@ == "item2"@,
    {
        let mut items: Vec<String> = Vec::new();
        items.push("item1".to_owned());
        items.push("item2".to_owned());
        items
    }
}

/// Drains the counting source through a worker and returns the number of
/// items made. `counter` is the source's count of chunks emitted so far;
/// afterwards the source is exhausted.
pub fn run(counter: &mut u32) -> (produced: u64)
    ensures
        *final(counter) == if *old(counter) < DATA_CHUNKS {
            DATA_CHUNKS
        } else {
            *old(counter)
        },
        produced == ITEMS_PER_CHUNK * (*final(counter) - *old(counter)),
{
    let process = Proc::create();
    let mut produced: u64 = 0;
    loop
        invariant
            *old(counter) <= *counter,
            *old(counter) < DATA_CHUNKS ==> *counter <= DATA_CHUNKS,
            *old(counter) >= DATA_CHUNKS ==> *counter == *old(counter),
            produced == ITEMS_PER_CHUNK * (*counter - *old(counter)),
        ensures
            *counter >= DATA_CHUNKS,
        decreases
            if *counter < DATA_CHUNKS {
                DATA_CHUNKS - *counter + 1
            } else {
                0
            },
    {
        match get_data(counter) {
            Some(data) => {
                let items = process.process(data.as_slice());
                produced = produced + items.len() as u64;
            },
            None => {
                break;
            },
        }
    }
    produced
}

} // verus!
