use vstd::prelude::*;

verus! {

/// The SPICE channel type number of a display channel.
pub const DISPLAY_CHANNEL_TYPE: i32 = 2;

/// Whether the session itself takes up a channel that it announced: it does
/// so for a display channel only, and only while the session still exists.
pub open spec fn session_adopts_of(channel_type: Option<i32>, session_alive: bool) -> bool {
    session_alive && channel_type == Some(DISPLAY_CHANNEL_TYPE)
}

/// Decides whether the session takes up an announced channel of type
/// `channel_type` (none when the type could not be read).
pub fn session_adopts_channel(channel_type: Option<i32>, session_alive: bool) -> (b: bool)
    ensures
        b == session_adopts_of(channel_type, session_alive),
{
    match channel_type {
        Some(t) => session_alive && t == DISPLAY_CHANNEL_TYPE,
        None => false,
    }
}

/// The session takes up a channel exactly when it still exists and the
/// channel's type is 2, the display channel.
pub proof fn lemma_session_adopts_display_only(channel_type: Option<i32>, session_alive: bool)
    ensures
        session_adopts_of(channel_type, session_alive) <==> (session_alive && channel_type == Some(2i32)),
{
}

} // verus!
