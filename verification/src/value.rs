//! Plain-data model of the values that guest code hands to the host and receives back.

use vstd::prelude::*;

verus! {

/// A value as guest code sees it, reduced to what the host ever inspects.
pub enum GuestValue {
    /// The `undefined` value; also what reading an absent property yields.
    Undefined,
    /// The `null` sentinel.
    Null,
    /// A boolean.
    Bool(bool),
    /// A number the engine holds as a 32-bit integer.
    Int(i32),
    /// A non-negative integral number too large for the 32-bit integer representation.
    Big(u64),
    /// A string.
    Text(String),
    /// The bytes of an array buffer.
    Bytes(Vec<u8>),
    /// Anything callable.
    Function,
    /// A plain object: its own enumerable properties in insertion order.
    Object(Vec<GuestProperty>),
    /// Any other value (fractional numbers, symbols, ...).
    Other,
}

/// One property of a guest object.
pub struct GuestProperty {
    pub name: String,
    pub value: GuestValue,
}

impl GuestValue {
    /// Whether this is the `undefined` value.
    pub open spec fn is_undefined(&self) -> bool {
        self is Undefined
    }

    /// The guest number that stands for `n`: a 32-bit integer where `n` fits one.
    pub fn from_u64(n: u64) -> (r: GuestValue)
        ensures
            n <= i32::MAX ==> r == GuestValue::Int(n as i32),
            n > i32::MAX ==> r == GuestValue::Big(n),
    {
        if n <= 2147483647 {
            GuestValue::Int(n as i32)
        } else {
            GuestValue::Big(n)
        }
    }
}

/// The value of property `name` among `props`: the last property of that name, or `None`
/// where the object has no such property (guest code then reads `undefined`).
pub open spec fn property(props: Seq<GuestProperty>, name: Seq<char>) -> Option<GuestValue>
    decreases props.len(),
{
    if props.len() == 0 {
        None
    } else if props.last().name@ == name {
        Some(props.last().value)
    } else {
        property(props.drop_last(), name)
    }
}

/// Finds property `name` among `props`.
pub fn find_property<'a>(props: &'a Vec<GuestProperty>, name: &str) -> (r: Option<&'a GuestValue>)
    ensures
        r is Some <==> property(props@, name@) is Some,
        r matches Some(v) ==> property(props@, name@) == Some(*v),
{
    let mut i: usize = props.len();
    assert(props@.take(i as int) =~= props@);
    while i > 0
        invariant
            i <= props.len(),
            property(props@, name@) == property(props@.take(i as int), name@),
        decreases i,
    {
        let prop = &props[i - 1];
        proof {
            let head = props@.take(i as int);
            assert(head.last() == props@[i - 1]);
            assert(head.drop_last() =~= props@.take(i - 1));
        }
        if str_eq(prop.name.as_str(), name) {
            return Some(&prop.value);
        }
        i = i - 1;
    }
    proof {
        assert(props@.take(0).len() == 0);
    }
    None
}

/// Whether two strings hold the same text.
pub fn str_eq(a: &str, b: &str) -> (r: bool)
    ensures
        r == (a@ == b@),
{
    let x = a.to_owned();
    let y = b.to_owned();
    x == y
}

} // verus!
