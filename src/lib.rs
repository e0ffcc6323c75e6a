use vstd::prelude::*;

pub mod registers;
pub mod state;
pub mod laws;
pub mod console;
pub mod layout;
pub mod dispatch;
pub mod loader;
pub mod fcb;

verus! {

} // verus!
