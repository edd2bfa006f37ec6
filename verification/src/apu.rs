use vstd::prelude::*;

verus! {

/// Audio unit. Sound synthesis is out of scope: this is a placeholder that
/// the machine owns so the outer loop has somewhere to hang a future unit.
pub struct Apu {}

impl Apu {
    pub fn new() -> Apu {
        Apu {  }
    }
}

} // verus!
