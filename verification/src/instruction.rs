//! The instructions that the target's interpreter is handed, and a complete
//! unit of them.

use vstd::prelude::*;

verus! {

/// One instruction for the target's interpreter.
#[derive(Clone, Copy, Debug, PartialEq, Eq, Structural)]
pub enum Instruction {
    /// Push a 32-bit constant as the next argument.
    Push32(u32),
    /// Call the function with this identifier on the arguments pushed so far.
    Call(u8),
    /// End of the sequence.
    Done,
}

/// What is submitted to the target as one unit: the instructions and, for an
/// action that writes, the bytes to write.
#[derive(Debug, PartialEq, Eq)]
pub struct Operation {
    pub ops: Vec<Instruction>,
    pub payload: Option<Vec<u8>>,
}

/// An `Operation` as sequences.
pub struct OperationView {
    pub ops: Seq<Instruction>,
    pub payload: Option<Seq<u8>>,
}

impl View for Operation {
    type V = OperationView;

    open spec fn view(&self) -> OperationView {
        OperationView {
            ops: self.ops@,
            payload: match self.payload {
                Some(bytes) => Some(bytes@),
                None => None,
            },
        }
    }
}

/// The number of call instructions in `ops`.
pub open spec fn call_count(ops: Seq<Instruction>) -> nat
    decreases ops.len(),
{
    if ops.len() == 0 {
        0
    } else {
        call_count(ops.drop_last()) + if ops.last() is Call {
            1nat
        } else {
            0nat
        }
    }
}

/// The number of constants that `ops` pushes.
pub open spec fn push_count(ops: Seq<Instruction>) -> nat
    decreases ops.len(),
{
    if ops.len() == 0 {
        0
    } else {
        push_count(ops.drop_last()) + if ops.last() is Push32 {
            1nat
        } else {
            0nat
        }
    }
}

/// `ops` ends with the terminator and holds no other.
pub open spec fn terminated(ops: Seq<Instruction>) -> bool {
    &&& ops.len() > 0
    &&& ops.last() == Instruction::Done
    &&& forall|i: int| 0 <= i < ops.len() - 1 ==> ops[i] != Instruction::Done
}

impl Operation {
    /// The number of calls that the operation makes, which is the number of
    /// results that the target holds once it has run.
    pub fn expected_results(&self) -> (count: usize)
        ensures
            count == call_count(self@.ops),
    {
        let n = self.ops.len();
        let mut count: usize = 0;
        let mut i: usize = 0;
        while i < n
            invariant
                n == self.ops.len(),
                i <= n,
                count <= i,
                count == call_count(self.ops@.take(i as int)),
            decreases n - i,
        {
            proof {
                assert(self.ops@.take(i as int + 1).drop_last() =~= self.ops@.take(i as int));
            }
            match self.ops[i] {
                Instruction::Call(_) => {
                    count = count + 1;
                },
                _ => {},
            }
            i = i + 1;
        }
        proof {
            assert(self.ops@.take(n as int) =~= self.ops@);
        }
        count
    }
}

} // verus!
