use vstd::prelude::*;

pub mod config;
pub mod simulated;
pub mod button_tracker;
pub mod sdl;
pub mod text;
pub mod fold;
pub mod parsed_config;
pub mod simulated_gyro;
pub mod calibration;
pub mod event_processing;
pub mod event_loop;

verus! {

/// The options the program was started with.
#[derive(Debug, Clone, Copy)]
pub struct Args {
    pub verbose: bool,
    pub dump_parse_config: bool,
}

/// Builds a vector of `len` empty slots.
pub fn none_vec<T>(len: usize) -> (v: Vec<Option<T>>)
    ensures
        v@.len() == len,
        forall|i: int| 0 <= i < len ==> v@[i] is None,
{
    let mut v: Vec<Option<T>> = Vec::new();
    let mut i: usize = 0;
    while i < len
        invariant
            i <= len,
            v@.len() == i,
            forall|j: int| 0 <= j < i ==> v@[j] is None,
        decreases len - i,
    {
        v.push(None);
        i = i + 1;
    }
    v
}

} // verus!
