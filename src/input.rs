use vstd::prelude::*;

verus! {

/// Key value of the Escape key in the toolkit's key symbol table.
pub const ESCAPE_KEYVAL: u32 = 0xff1b;

/// What the window does with a key press.
#[derive(Clone, Copy, Debug, PartialEq, Eq, Structural)]
pub enum KeyResponse {
    /// Close the window and stop the event from propagating further.
    CloseAndStop,
    /// Leave the event unhandled so that it propagates.
    PassThrough,
}

/// Escape dismisses the window; every other key passes through.
pub fn on_key_pressed(keyval: u32) -> (r: KeyResponse)
    ensures
        r is CloseAndStop <==> keyval == ESCAPE_KEYVAL,
        r is PassThrough <==> keyval != ESCAPE_KEYVAL,
{
    if keyval == ESCAPE_KEYVAL {
        KeyResponse::CloseAndStop
    } else {
        KeyResponse::PassThrough
    }
}

} // verus!
