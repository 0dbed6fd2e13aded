//! What a processor is configured with when it is made.

use crate::platform::logging::{Logger, Stdout};
use vstd::prelude::*;

verus! {

/// The configuration of a processor. The speed at which a driver paces a run is
/// the driver's own.
pub struct CpuConfig {
    /// Reproduce the page-wrap fault of the indirect jump: a pointer whose low byte
    /// is 0xFF takes its high byte from the start of the same page.
    pub emulate_indirect_jmp_bug: bool,
    /// Where a driver sends its messages.
    pub logger: Box<dyn Logger>,
}

impl CpuConfig {
    /// The fault off, logging to standard output.
    pub fn default() -> (config: Self)
        ensures
            !config.emulate_indirect_jmp_bug,
    {
        Self { emulate_indirect_jmp_bug: false, logger: Box::new(Stdout {  }) }
    }
}

} // verus!
