use vstd::prelude::*;
use crate::backend;
use crate::dataframe::{frame_at, frame_ref};
use crate::engine::Engine;

verus! {

/// The frame that a handle names as CSV with a header row, or nothing where
/// the handle names no frame or the frame cannot be written.
pub fn dataframe_to_csv(engine: &Engine, handle: usize) -> (r: Option<Vec<u8>>)
    ensures
        match frame_at(engine@, handle) {
            Some(frame) => match backend::frame_csv(frame) {
                Some(bytes) => r matches Some(written) && written@ == bytes,
                None => r is None,
            },
            None => r is None,
        },
{
    match frame_ref(engine, handle) {
        Some(df) => backend::csv_of(df),
        None => None,
    }
}

/// The frame that a handle names drawn as a table, or nothing where the
/// handle names no frame.
pub fn dataframe_to_string(engine: &Engine, handle: usize) -> (r: Option<String>)
    ensures
        r is Some <==> frame_at(engine@, handle) is Some,
{
    match frame_ref(engine, handle) {
        Some(df) => Some(backend::rendered(df)),
        None => None,
    }
}

/// The number of rows of the frame that a handle names, and zero where it
/// names no frame.
pub fn dataframe_height(engine: &Engine, handle: usize) -> (n: usize)
    ensures
        n == match frame_at(engine@, handle) {
            Some(frame) => backend::frame_height(frame),
            None => 0,
        },
{
    match frame_ref(engine, handle) {
        Some(df) => backend::height_of(df),
        None => 0,
    }
}

/// Gives up the object that a handle names. The answer is zero, whether or
/// not the handle named anything; no other handle changes its meaning.
pub fn release_dataframe(engine: &mut Engine, handle: usize) -> (code: i32)
    ensures
        code == 0,
        final(engine)@ == old(engine)@.remove(handle),
{
    engine.release(handle);
    0
}

} // verus!
