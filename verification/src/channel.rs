use vstd::prelude::*;

verus! {

/// The kinds of SPICE channel that the client takes up.
#[derive(Clone, Copy, PartialEq, Eq, Structural, Debug)]
pub enum ChannelKind {
    Main,
    Display,
    Input,
    Cursor,
}

/// The SPICE channel type number of each kind.
pub open spec fn type_number(kind: ChannelKind) -> i32 {
    match kind {
        ChannelKind::Main => 1,
        ChannelKind::Display => 2,
        ChannelKind::Input => 3,
        ChannelKind::Cursor => 4,
    }
}

/// The kind of channel that a SPICE channel type number names, among those
/// the client takes up.
pub open spec fn kind_of(channel_type: i32) -> Option<ChannelKind> {
    if channel_type == 1 {
        Some(ChannelKind::Main)
    } else if channel_type == 2 {
        Some(ChannelKind::Display)
    } else if channel_type == 3 {
        Some(ChannelKind::Input)
    } else if channel_type == 4 {
        Some(ChannelKind::Cursor)
    } else {
        None
    }
}

/// Classifies a SPICE channel type number.
pub fn kind_of_type(channel_type: i32) -> (k: Option<ChannelKind>)
    ensures
        k == kind_of(channel_type),
{
    if channel_type == 1 {
        Some(ChannelKind::Main)
    } else if channel_type == 2 {
        Some(ChannelKind::Display)
    } else if channel_type == 3 {
        Some(ChannelKind::Input)
    } else if channel_type == 4 {
        Some(ChannelKind::Cursor)
    } else {
        None
    }
}

/// A channel that the client took up, holding the caller's handle on the
/// channel state of its kind.
pub enum Channel<M, D, I, C> {
    DisplayChannel(D),
    CursorChannel(C),
    InputChannel(I),
    MainChannel(M),
}

impl<M, D, I, C> Channel<M, D, I, C> {
    /// The kind of this channel.
    pub open spec fn kind(&self) -> ChannelKind {
        match self {
            Channel::DisplayChannel(_) => ChannelKind::Display,
            Channel::CursorChannel(_) => ChannelKind::Cursor,
            Channel::InputChannel(_) => ChannelKind::Input,
            Channel::MainChannel(_) => ChannelKind::Main,
        }
    }

    /// The kind of this channel.
    pub fn channel_kind(&self) -> (k: ChannelKind)
        ensures
            k == self.kind(),
    {
        match self {
            Channel::DisplayChannel(_) => ChannelKind::Display,
            Channel::CursorChannel(_) => ChannelKind::Cursor,
            Channel::InputChannel(_) => ChannelKind::Input,
            Channel::MainChannel(_) => ChannelKind::Main,
        }
    }
}

/// The type number and the kind name each other both ways.
pub proof fn lemma_type_number_round_trip(kind: ChannelKind, channel_type: i32)
    ensures
        kind_of(type_number(kind)) == Some(kind),
        kind_of(channel_type) matches Some(k) ==> type_number(k) == channel_type,
{
}

/// Type 1 is the main channel, 2 the display, 3 the inputs and 4 the
/// cursor channel; no other type is taken up.
pub proof fn lemma_channel_type_numbers(channel_type: i32)
    ensures
        kind_of(1) == Some(ChannelKind::Main),
        kind_of(2) == Some(ChannelKind::Display),
        kind_of(3) == Some(ChannelKind::Input),
        kind_of(4) == Some(ChannelKind::Cursor),
        (channel_type < 1 || channel_type > 4) ==> kind_of(channel_type) is None,
{
}

} // verus!
