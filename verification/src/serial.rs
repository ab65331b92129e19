//! Text for the serial line. Sending it is left to the caller.

use vstd::prelude::*;

verus! {

/// The line ending that the serial console expects.
pub open spec fn line_end() -> Seq<char> {
    seq!['\n', '\r']
}

/// A message as one line for the serial console: the message followed by
/// a line feed and a carriage return.
pub fn writeln(message: &str) -> (line: String)
    ensures
        line@ == message@ + line_end(),
{
    let mut line = message.to_owned();
    line.append("\n\r");
    proof {
        reveal_strlit("\n\r");
        assert("\n\r"@ =~= line_end());
    }
    line
}

} // verus!
