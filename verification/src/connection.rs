use vstd::prelude::*;
use vstd::string::StringExecFns;

use std::collections::HashMap;

use crate::channel::{kind_of, kind_of_type, type_number, Channel, ChannelKind};
use crate::signal::{is_object_arg, object_arg_at, SignalArg};

verus! {

broadcast use vstd::std_specs::hash::group_hash_axioms;

/// Every slot holds a channel whose kind has that slot's type number.
pub open spec fn slots_match<M, D, I, C>(m: Map<i32, Channel<M, D, I, C>>) -> bool {
    forall|k: i32| #[trigger] m.contains_key(k) ==> type_number(m[k].kind()) == k
}

/// The channels that a connection has taken up, each under the type number
/// of its kind.
pub struct Channels<M, D, I, C> {
    map: HashMap<i32, Channel<M, D, I, C>>,
}

impl<M, D, I, C> View for Channels<M, D, I, C> {
    type V = Map<i32, Channel<M, D, I, C>>;

    closed spec fn view(&self) -> Map<i32, Channel<M, D, I, C>> {
        self.map@
    }
}

impl<M, D, I, C> Channels<M, D, I, C> {
    /// The table's invariant: each channel sits under its own type number.
    pub open spec fn wf(&self) -> bool {
        slots_match(self@)
    }

    /// An empty table.
    pub fn new() -> (t: Self)
        ensures
            t.wf(),
            t@ == Map::<i32, Channel<M, D, I, C>>::empty(),
    {
        Channels { map: HashMap::new() }
    }

    /// Takes up `channel` under the type number of its kind, in place of any
    /// channel of that kind taken up before.
    pub fn register(&mut self, channel: Channel<M, D, I, C>)
        requires
            old(self).wf(),
        ensures
            final(self).wf(),
            final(self)@ == old(self)@.insert(type_number(channel.kind()), channel),
    {
        let key: i32 = match channel.channel_kind() {
            ChannelKind::Main => 1,
            ChannelKind::Display => 2,
            ChannelKind::Input => 3,
            ChannelKind::Cursor => 4,
        };
        self.map.insert(key, channel);
    }

    /// The display channel, if one was taken up.
    pub fn display_channel(&self) -> (r: Option<&D>)
        requires
            self.wf(),
        ensures
            match r {
                Some(d) => self@.contains_key(2) && self@[2] == Channel::<M, D, I, C>::DisplayChannel(*d),
                None => !self@.contains_key(2),
            },
    {
        match self.map.get(&2) {
            Some(Channel::DisplayChannel(d)) => Some(d),
            Some(_) => {
                proof {
                    assert(type_number(self@[2].kind()) == 2);
                }
                None
            },
            None => None,
        }
    }

    /// The inputs channel, if one was taken up.
    pub fn input(&self) -> (r: Option<&I>)
        requires
            self.wf(),
        ensures
            match r {
                Some(i) => self@.contains_key(3) && self@[3] == Channel::<M, D, I, C>::InputChannel(*i),
                None => !self@.contains_key(3),
            },
    {
        match self.map.get(&3) {
            Some(Channel::InputChannel(i)) => Some(i),
            Some(_) => {
                proof {
                    assert(type_number(self@[3].kind()) == 3);
                }
                None
            },
            None => None,
        }
    }

    /// The main channel, if one was taken up.
    pub fn main_channel(&self) -> (r: Option<&M>)
        requires
            self.wf(),
        ensures
            match r {
                Some(m) => self@.contains_key(1) && self@[1] == Channel::<M, D, I, C>::MainChannel(*m),
                None => !self@.contains_key(1),
            },
    {
        match self.map.get(&1) {
            Some(Channel::MainChannel(m)) => Some(m),
            Some(_) => {
                proof {
                    assert(type_number(self@[1].kind()) == 1);
                }
                None
            },
            None => None,
        }
    }

    /// The main and display channels that a monitor configuration goes
    /// through, when both were taken up.
    pub fn monitor_config_target(&self) -> (r: Option<(&M, &D)>)
        requires
            self.wf(),
        ensures
            match r {
                Some((m, d)) => {
                    &&& self@.contains_key(1)
                    &&& self@[1] == Channel::<M, D, I, C>::MainChannel(*m)
                    &&& self@.contains_key(2)
                    &&& self@[2] == Channel::<M, D, I, C>::DisplayChannel(*d)
                },
                None => !self@.contains_key(1) || !self@.contains_key(2),
            },
    {
        match self.main_channel() {
            Some(m) => match self.display_channel() {
                Some(d) => Some((m, d)),
                None => None,
            },
            None => None,
        }
    }
}


/// What the connection does with a channel that the session announced.
#[derive(Clone, Copy, PartialEq, Eq, Structural, Debug)]
pub struct ChannelNewPlan {
    /// The kind of channel state to build around the channel object, if any.
    pub kind: Option<ChannelKind>,
    /// Whether to connect the channel.
    pub connect: bool,
    /// Whether to take the channel up in the connection's table.
    pub register: bool,
    /// Whether to place the pointer at the origin of the display channel
    /// already taken up, before taking up the inputs channel.
    pub place_cursor: bool,
}

/// The plan for a channel of type `channel_type` (none when the channel
/// object has no readable type), where `table_alive` tells whether the
/// connection's table still exists and `display_known` whether it holds a
/// display channel. Every kind but the main channel is connected; a kind is
/// taken up only while the table exists; the inputs channel first places the
/// pointer on the display channel, when there is one.
pub open spec fn channel_new_plan_of(channel_type: Option<i32>, table_alive: bool, display_known: bool) -> ChannelNewPlan {
    let kind = match channel_type {
        Some(t) => kind_of(t),
        None => None,
    };
    ChannelNewPlan {
        kind,
        connect: kind is Some && kind != Some(ChannelKind::Main),
        register: table_alive && kind is Some,
        place_cursor: table_alive && kind == Some(ChannelKind::Input) && display_known,
    }
}

/// Tells whether a `channel-new` emission carries the new channel object.
pub fn channel_new_carries_channel(args: &Vec<SignalArg>) -> (b: bool)
    ensures
        b == object_arg_at(args@, 1),
{
    is_object_arg(args, 1)
}

/// Decides what to do with a channel that the session announced.
pub fn plan_channel_new<M, D, I, C>(channel_type: Option<i32>, table: Option<&Channels<M, D, I, C>>) -> (p: ChannelNewPlan)
    requires
        table matches Some(t) ==> t.wf(),
    ensures
        p == channel_new_plan_of(
            channel_type,
            table is Some,
            table matches Some(t) && t@.contains_key(2),
        ),
{
    let kind = match channel_type {
        Some(t) => kind_of_type(t),
        None => None,
    };
    let known = kind.is_some();
    let is_main = match kind {
        Some(ChannelKind::Main) => true,
        _ => false,
    };
    let is_input = match kind {
        Some(ChannelKind::Input) => true,
        _ => false,
    };
    match table {
        Some(t) => {
            let display_known = t.display_channel().is_some();
            ChannelNewPlan {
                kind,
                connect: known && !is_main,
                register: known,
                place_cursor: is_input && display_known,
            }
        },
        None => ChannelNewPlan { kind, connect: known && !is_main, register: false, place_cursor: false },
    }
}

/// Registering a channel keeps every channel under its own type number,
/// makes it the one found under its kind's number, and leaves every other
/// slot as it was.
pub proof fn lemma_register_then_lookup<M, D, I, C>(
    before: Map<i32, Channel<M, D, I, C>>,
    channel: Channel<M, D, I, C>,
    after: Map<i32, Channel<M, D, I, C>>,
)
    requires
        slots_match(before),
        after == before.insert(type_number(channel.kind()), channel),
    ensures
        slots_match(after),
        after.contains_key(type_number(channel.kind())),
        after[type_number(channel.kind())] == channel,
        forall|k: i32|
            k != type_number(channel.kind()) ==> (#[trigger] after.contains_key(k) == before.contains_key(k)
                && (before.contains_key(k) ==> after[k] == before[k])),
{
}

/// A table only has slots for the four kinds, and each slot's channel is
/// of the kind that its number names.
pub proof fn lemma_slots_name_their_kind<M, D, I, C>(t: Channels<M, D, I, C>, k: i32)
    requires
        t.wf(),
        t@.contains_key(k),
    ensures
        1 <= k <= 4,
        kind_of(k) == Some(t@[k].kind()),
{
}

/// The main channel is never connected; nothing is taken up once the table
/// is gone; the pointer is placed only when an inputs channel is taken up
/// and a display channel is known; and whether a channel is connected does
/// not depend on the table.
pub proof fn lemma_channel_new_plan(channel_type: Option<i32>, table_alive: bool, display_known: bool)
    ensures
        ({
            let p = channel_new_plan_of(channel_type, table_alive, display_known);
            &&& p.kind == Some(ChannelKind::Main) ==> !p.connect
            &&& p.register ==> table_alive && p.kind is Some
            &&& p.place_cursor ==> p.register && p.kind == Some(ChannelKind::Input) && display_known
            &&& p.connect == channel_new_plan_of(channel_type, !table_alive, display_known).connect
            &&& p.kind is None ==> !p.connect && !p.register && !p.place_cursor
        }),
{
}

/// The arguments of the display setting that a monitor configuration sends
/// on the main channel: `(display id, x, y, width, height)`, placed at the
/// origin.
pub open spec fn monitor_config_message(display_id: i32, w: i32, h: i32) -> (i32, i32, i32, i32, i32) {
    (display_id, 0, 0, w, h)
}

/// Orders the arguments of a monitor configuration of `w` by `h` for the
/// display `display_id`.
pub fn monitor_config_args(display_id: i32, w: i32, h: i32) -> (m: (i32, i32, i32, i32, i32))
    ensures
        m == monitor_config_message(display_id, w, h),
{
    (display_id, 0, 0, w, h)
}

/// A channel is connected exactly when its type is 2, 3 or 4 (display,
/// inputs, cursor), whatever the table holds; it is taken up exactly when
/// its type is 1 to 4 and the table exists; and the pointer is placed
/// exactly when an inputs channel (type 3) arrives at a live table that
/// holds a display channel.
pub proof fn lemma_channel_new_plan_by_type(channel_type: Option<i32>, table_alive: bool, display_known: bool)
    ensures
        ({
            let p = channel_new_plan_of(channel_type, table_alive, display_known);
            &&& p.connect == (channel_type == Some(2i32) || channel_type == Some(3i32) || channel_type == Some(4i32))
            &&& p.register == (table_alive && (channel_type == Some(1i32) || channel_type == Some(2i32)
                || channel_type == Some(3i32) || channel_type == Some(4i32)))
            &&& p.place_cursor == (table_alive && display_known && channel_type == Some(3i32))
            &&& (channel_type == Some(1i32) ==> p.kind == Some(ChannelKind::Main))
            &&& (channel_type == Some(2i32) ==> p.kind == Some(ChannelKind::Display))
            &&& (channel_type == Some(3i32) ==> p.kind == Some(ChannelKind::Input))
            &&& (channel_type == Some(4i32) ==> p.kind == Some(ChannelKind::Cursor))
        }),
{
}

/// A monitor configuration places the display at the origin and keeps the
/// id, width and height it was given.
pub proof fn lemma_monitor_config_at_origin(display_id: i32, w: i32, h: i32)
    ensures
        monitor_config_message(display_id, w, h).0 == display_id,
        monitor_config_message(display_id, w, h).1 == 0,
        monitor_config_message(display_id, w, h).2 == 0,
        monitor_config_message(display_id, w, h).3 == w,
        monitor_config_message(display_id, w, h).4 == h,
{
}

/// The decimal digit `d` as a character.
pub open spec fn digit_char(d: nat) -> char {
    (48 + d) as char
}

/// The decimal writing of `n`, without leading zeros.
pub open spec fn decimal(n: nat) -> Seq<char>
    decreases n,
{
    if n < 10 {
        seq![digit_char(n)]
    } else {
        decimal(n / 10) + seq![digit_char(n % 10)]
    }
}

/// The number that a string of decimal digits writes.
pub open spec fn decimal_value(s: Seq<char>) -> int
    decreases s.len(),
{
    if s.len() == 0 {
        0
    } else {
        10 * decimal_value(s.drop_last()) + (s.last() as int - 48)
    }
}

fn digit_str(d: u32) -> (r: &'static str)
    requires
        d < 10,
    ensures
        r@ == seq![digit_char(d as nat)],
{
    proof {
        reveal_strlit("0");
        reveal_strlit("1");
        reveal_strlit("2");
        reveal_strlit("3");
        reveal_strlit("4");
        reveal_strlit("5");
        reveal_strlit("6");
        reveal_strlit("7");
        reveal_strlit("8");
        reveal_strlit("9");
    }
    if d == 0 {
        "0"
    } else if d == 1 {
        "1"
    } else if d == 2 {
        "2"
    } else if d == 3 {
        "3"
    } else if d == 4 {
        "4"
    } else if d == 5 {
        "5"
    } else if d == 6 {
        "6"
    } else if d == 7 {
        "7"
    } else if d == 8 {
        "8"
    } else {
        "9"
    }
}

fn append_decimal(s: &mut String, n: u32)
    ensures
        final(s)@ == old(s)@ + decimal(n as nat),
    decreases n,
{
    if n >= 10 {
        append_decimal(s, n / 10);
    }
    s.append(digit_str(n % 10));
    proof {
        assert(old(s)@ + decimal(n as nat) =~= if n >= 10 {
            old(s)@ + decimal((n / 10) as nat) + seq![digit_char((n % 10) as nat)]
        } else {
            old(s)@ + seq![digit_char((n % 10) as nat)]
        });
    }
}

/// The text of the session's `port` property for a port number: its
/// decimal writing.
pub fn port_property(port: u32) -> (text: String)
    ensures
        text@ == decimal(port as nat),
{
    let mut text = String::new();
    append_decimal(&mut text, port);
    assert(text@ =~= decimal(port as nat));
    text
}

/// The decimal writing of a number reads back as that number, has at least
/// one digit, and starts with zero only when it is zero.
pub proof fn lemma_decimal_reads_back(n: nat)
    ensures
        decimal_value(decimal(n)) == n,
        decimal(n).len() >= 1,
        decimal(n)[0] == '0' ==> n == 0,
    decreases n,
{
    assert(digit_char(n % 10) as int == 48 + n % 10);
    if n < 10 {
        assert(decimal(n).drop_last() =~= Seq::<char>::empty());
        assert(decimal_value(Seq::<char>::empty()) == 0);
        assert(decimal(n).last() == digit_char(n));
    } else {
        lemma_decimal_reads_back(n / 10);
        let s = decimal(n);
        assert(s.drop_last() =~= decimal(n / 10));
        assert(s[0] == decimal(n / 10)[0]);
        assert(s.last() == digit_char(n % 10));
        assert(decimal_value(s) == 10 * (n / 10) + n % 10);
    }
}

} // verus!
