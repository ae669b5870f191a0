//! The player's input line: what a submission hands on.

use vstd::prelude::*;

use crate::npc::trimmed;
use crate::text::trim;

verus! {

/// Submits the input line: its trimmed text, which empties the buffer,
/// or `None` (buffer untouched) when only white space was typed.
pub fn take_submission(input_buffer: &mut String) -> (r: Option<String>)
    ensures
        trim(old(input_buffer)@).len() == 0 ==> r is None && final(input_buffer)@ == old(
            input_buffer,
        )@,
        trim(old(input_buffer)@).len() > 0 ==> (r matches Some(t) && t@ == trim(
            old(input_buffer)@,
        )),
        trim(old(input_buffer)@).len() > 0 ==> final(input_buffer)@ == Seq::<char>::empty(),
{
    let text = trimmed(input_buffer.as_str());
    if text.unicode_len() == 0 {
        None
    } else {
        *input_buffer = String::new();
        Some(text)
    }
}

} // verus!
