//! The step a session takes after an arithmetic command's operand has been
//! handed to the surrounding program.
//!
//! The surrounding program parses the operand word as a number and, on
//! success, applies the operation to the shared value and renders the operand
//! and the new value as text.  `operand_step` takes whatever came back and
//! decides the session's next step: a parse failure is fatal to the session,
//! a success earns exactly the arithmetic reply.

use vstd::prelude::*;

use crate::protocol::Op;
use crate::render::{op_reply, spec_op_reply};

verus! {

/// The session's next step after an arithmetic command.
#[derive(Debug)]
pub enum StepAction {
    /// Write this reply line and go on reading.
    Reply(Vec<u8>),
    /// Close the connection: the operand did not parse as a number.
    Terminate,
}

/// Decides the session's next step after an arithmetic command: `rendered`
/// holds the operand and result texts when the operand parsed and the
/// operation was applied, and nothing when the parse failed.
pub fn operand_step(op: Op, rendered: Option<(Vec<u8>, Vec<u8>)>) -> (r: StepAction)
    ensures
        rendered is None ==> r is Terminate,
        (rendered matches Some(p) ==> (r matches StepAction::Reply(line) && line@ == spec_op_reply(
            op,
            p.0@,
            p.1@,
        ))),
{
    match rendered {
        None => StepAction::Terminate,
        Some((operand_text, result_text)) => {
            StepAction::Reply(op_reply(op, &operand_text, &result_text))
        },
    }
}

} // verus!
