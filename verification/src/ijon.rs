//! The feedback page: a small interpreter-stats block at its head and 256
//! high-water slots in its upper half, written by the guest and read by the
//! harness.

use vstd::prelude::*;
use crate::bytes::{le_u32, le_u64, read_u32_le, read_u64_le};

verus! {

/// Statistics the guest interpreter reports.
#[derive(Clone, Copy, Debug, PartialEq, Eq, Structural)]
pub struct InterpreterData {
    pub executed_opcode_num: u32,
}

/// The 256 high-water ("max") feedback slots.
#[derive(Clone, Debug)]
pub struct IjonData {
    pub max_data: Vec<u64>,
}

/// Everything the feedback page carries.
#[derive(Clone, Debug)]
pub struct SharedFeedbackData {
    pub interpreter: InterpreterData,
    pub ijon: IjonData,
}

/// A snapshot of the feedback page.
#[derive(Clone, Debug)]
pub struct FeedbackBuffer {
    pub shared: SharedFeedbackData,
}

impl FeedbackBuffer {
    /// Wraps a decoded feedback page.
    pub fn new(shared: SharedFeedbackData) -> (r: Self)
        ensures
            r.shared == shared,
    {
        FeedbackBuffer { shared }
    }
}

/// The interpreter stats a feedback page holds: its first field.
pub open spec fn spec_interpreter_data(s: Seq<u8>) -> InterpreterData {
    InterpreterData { executed_opcode_num: le_u32(s.subrange(0, 4)) }
}

/// The i-th high-water slot a feedback page holds: the slots start at the
/// upper half of the 4096-byte page.
pub open spec fn spec_ijon_slot(s: Seq<u8>, i: int) -> u64 {
    le_u64(s.subrange(0x800 + 8 * i, 0x800 + 8 * i + 8))
}

/// Decodes the feedback page: the interpreter stats and all 256 high-water
/// slots.
pub fn read_feedback(page: &[u8]) -> (r: SharedFeedbackData)
    requires
        page@.len() >= 4096,
    ensures
        r.interpreter == spec_interpreter_data(page@),
        r.ijon.max_data@.len() == 256,
        forall|i: int| 0 <= i < 256 ==> r.ijon.max_data@[i] == spec_ijon_slot(page@, i),
{
    let interpreter = InterpreterData { executed_opcode_num: read_u32_le(page, 0) };
    let mut max_data: Vec<u64> = Vec::new();
    let mut i: usize = 0;
    while i < 256
        invariant
            page@.len() >= 4096,
            i <= 256,
            max_data@.len() == i,
            forall|j: int| 0 <= j < i ==> max_data@[j] == spec_ijon_slot(page@, j),
        decreases 256 - i,
    {
        max_data.push(read_u64_le(page, 0x800 + 8 * i));
        i = i + 1;
    }
    SharedFeedbackData { interpreter, ijon: IjonData { max_data } }
}

} // verus!
