use vstd::prelude::*;

verus! {

/// What the library reads of one argument of a GObject signal emission.
#[derive(Clone, Copy, PartialEq, Eq, Structural, Debug)]
pub enum SignalArg {
    /// A value of type `gint`.
    Int(i32),
    /// A value of type `gpointer`, given by its address.
    Pointer(usize),
    /// A value that holds a `GObject`.
    Object,
    /// A value of any other type.
    Other,
}

/// The integer carried by argument `i`, if there is one and it is a `gint`.
pub open spec fn int_arg_of(args: Seq<SignalArg>, i: int) -> Option<i32> {
    if 0 <= i < args.len() {
        match args[i] {
            SignalArg::Int(v) => Some(v),
            _ => None,
        }
    } else {
        None
    }
}

/// The address carried by argument `i`, if there is one and it is a `gpointer`.
pub open spec fn pointer_arg_of(args: Seq<SignalArg>, i: int) -> Option<usize> {
    if 0 <= i < args.len() {
        match args[i] {
            SignalArg::Pointer(p) => Some(p),
            _ => None,
        }
    } else {
        None
    }
}

/// Whether argument `i` exists and holds an object.
pub open spec fn object_arg_at(args: Seq<SignalArg>, i: int) -> bool {
    0 <= i < args.len() && args[i] is Object
}

/// Reads argument `i` as a `gint`.
pub fn int_arg(args: &Vec<SignalArg>, i: usize) -> (r: Option<i32>)
    ensures
        r == int_arg_of(args@, i as int),
{
    if i < args.len() {
        match args[i] {
            SignalArg::Int(v) => Some(v),
            _ => None,
        }
    } else {
        None
    }
}

/// Reads argument `i` as a `gpointer`.
pub fn pointer_arg(args: &Vec<SignalArg>, i: usize) -> (r: Option<usize>)
    ensures
        r == pointer_arg_of(args@, i as int),
{
    if i < args.len() {
        match args[i] {
            SignalArg::Pointer(p) => Some(p),
            _ => None,
        }
    } else {
        None
    }
}

/// Tells whether argument `i` holds an object.
pub fn is_object_arg(args: &Vec<SignalArg>, i: usize) -> (r: bool)
    ensures
        r == object_arg_at(args@, i as int),
{
    if i < args.len() {
        match args[i] {
            SignalArg::Object => true,
            _ => false,
        }
    } else {
        false
    }
}

} // verus!
