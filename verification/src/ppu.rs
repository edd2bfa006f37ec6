use vstd::prelude::*;

verus! {

/// Picture-processing unit. Rendering is out of scope: this is a
/// placeholder that the machine owns so the outer loop has somewhere to
/// hang a future unit.
pub struct Ppu {}

impl Ppu {
    pub fn new() -> Ppu {
        Ppu {  }
    }
}

} // verus!
