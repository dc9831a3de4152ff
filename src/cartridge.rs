use vstd::prelude::*;

verus! {

/// A program image as read from a cartridge file, to be handed to
/// `System::init`.
pub struct CU {
    pub buffer: Vec<u8>,
}

} // verus!
