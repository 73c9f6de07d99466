//! Clarity values: what a contract answers.

use crate::names::NameMap;
use crate::text::{big_endian, decimal_text};
use crate::types::PrincipalData;
use vstd::prelude::*;

verus! {

/// A value that a contract answered, as far as a configuration is read from it.
#[derive(Debug)]
pub enum ClarityValue {
    UInt(u128),
    Buffer(Vec<u8>),
    List(Vec<ClarityValue>),
    Principal(PrincipalData),
    Tuple(NameMap<ClarityValue>),
    Response(ResponseData),
    /// A value of any other kind.
    Other,
}

/// The value of a response.
#[derive(Debug)]
pub enum ResponseData {
    /// `(ok ..)`
    Committed(Box<ClarityValue>),
    /// `(err ..)`
    Aborted(AbortData),
}

/// The value of an `(err ..)`, in the form in which the virtual machine serializes it.
#[derive(Debug)]
pub struct AbortData {
    source: Vec<u8>,
}

impl View for AbortData {
    type V = Seq<u8>;

    closed spec fn view(&self) -> Seq<u8> {
        self.source@
    }
}

/// The text of the value that bytes begin with, if they do begin with one: what the `Display` of
/// `clarity::vm::Value` prints of what `clarity::vm::Value::deserialize_read` reads.
pub uninterp spec fn value_text(bytes: Seq<u8>) -> Option<Seq<char>>;

/// The unsigned integer that bytes begin with, if they do begin with one: the prefix 1, and then
/// sixteen bytes, the high one first.
pub open spec fn uint_in(bytes: Seq<u8>) -> Option<u128> {
    if bytes.len() >= 17 && bytes[0] == 1 {
        Some(big_endian(bytes.subrange(1, 17)) as u128)
    } else {
        None
    }
}

/// The text of the unsigned integer, or of the boolean, that bytes begin with, if they do begin
/// with one. A boolean is its prefix alone: 3 if it is true, and 4 if it is false.
pub open spec fn scalar_text(bytes: Seq<u8>) -> Option<Seq<char>> {
    if uint_in(bytes) is Some {
        Some("u"@ + decimal_text(uint_in(bytes)->Some_0 as nat))
    } else if bytes.len() > 0 && bytes[0] == 3 {
        Some("true"@)
    } else if bytes.len() > 0 && bytes[0] == 4 {
        Some("false"@)
    } else {
        None
    }
}

/// Prints the value that bytes begin with.
///
/// Calls `clarity::vm::Value::deserialize_read`, without a type to expect, and `to_string`
/// through the `Display` of `clarity::vm::Value`. The text is a function of the bytes alone, and
/// is named here. Of the name it is only said what it is for an unsigned integer or a boolean.
/// The reader makes no value that cannot be printed: a `string-utf8` that it reads has no empty
/// character.
#[verifier::external_body]
fn print_value(bytes: &Vec<u8>) -> (text: Option<String>)
    ensures
        value_text(bytes@) == (match text {
            Some(t) => Some(t@),
            None => None,
        }),
        scalar_text(bytes@) is Some ==> (match text {
            Some(t) => Some(t@),
            None => None,
        }) == scalar_text(bytes@),
{
    clarity::vm::Value::deserialize_read(&mut bytes.as_slice(), None, true).ok().map(
        |value| value.to_string(),
    )
}

/// Reads the unsigned integer that bytes begin with.
///
/// Calls `clarity::vm::Value::deserialize_read`, without a type to expect. It reads an unsigned
/// integer from the prefix 1 and sixteen bytes behind it, the high one first, and from nothing
/// else.
#[verifier::external_body]
fn read_uint(bytes: &Vec<u8>) -> (n: Option<u128>)
    ensures
        n == uint_in(bytes@),
{
    match clarity::vm::Value::deserialize_read(&mut bytes.as_slice(), None, true) {
        Ok(clarity::vm::Value::UInt(n)) => Some(n),
        _ => None,
    }
}

impl AbortData {
    /// The bytes begin with a value.
    #[verifier::type_invariant]
    spec fn has_value(self) -> bool {
        value_text(self.source@) is Some
    }

    /// The value that the bytes begin with, if they do begin with one.
    pub fn new(source: Vec<u8>) -> (abort: Option<AbortData>)
        ensures
            abort is Some <==> value_text(source@) is Some,
            scalar_text(source@) is Some ==> abort is Some,
            abort matches Some(a) ==> a@ == source@,
    {
        match print_value(&source) {
            Some(_) => Some(AbortData { source }),
            None => None,
        }
    }

    /// The text of the value.
    pub open spec fn spec_text(&self) -> Seq<char> {
        value_text(self@)->Some_0
    }

    /// Prints the value.
    pub fn text(&self) -> (text: String)
        ensures
            text@ == self.spec_text(),
            scalar_text(self@) is Some ==> Some(text@) == scalar_text(self@),
    {
        proof {
            use_type_invariant(self);
        }
        print_value(&self.source).unwrap()
    }

    /// The value, if it is an unsigned integer.
    pub fn uint(&self) -> (n: Option<u128>)
        ensures
            n == uint_in(self@),
    {
        read_uint(&self.source)
    }
}

/// The field `name` of a tuple is there, and is an unsigned integer.
pub open spec fn has_uint(tuple: Map<Seq<char>, ClarityValue>, name: Seq<char>) -> bool {
    tuple.contains_key(name) && tuple[name] is UInt
}

/// The unsigned integer in the field `name` of a tuple.
pub open spec fn uint_field(tuple: Map<Seq<char>, ClarityValue>, name: Seq<char>) -> u128 {
    tuple[name]->UInt_0
}

/// Reads the field `name` of a tuple, if it is an unsigned integer.
pub(crate) fn get_uint(tuple: &NameMap<ClarityValue>, name: &str) -> (n: Option<u128>)
    ensures
        n == (if has_uint(tuple@, name@) {
            Some(uint_field(tuple@, name@))
        } else {
            None
        }),
{
    match tuple.get(name) {
        Some(ClarityValue::UInt(n)) => Some(*n),
        _ => None,
    }
}

/// The field `name` of a tuple is there, and is a list.
pub open spec fn has_list(tuple: Map<Seq<char>, ClarityValue>, name: Seq<char>) -> bool {
    tuple.contains_key(name) && tuple[name] is List
}

/// The list in the field `name` of a tuple.
pub open spec fn list_field(tuple: Map<Seq<char>, ClarityValue>, name: Seq<char>) -> Seq<ClarityValue> {
    tuple[name]->List_0@
}

/// Reads the field `name` of a tuple, if it is a list.
pub(crate) fn get_list<'a>(tuple: &'a NameMap<ClarityValue>, name: &str) -> (list: Option<&'a Vec<ClarityValue>>)
    ensures
        list is Some <==> has_list(tuple@, name@),
        list matches Some(items) ==> items@ == list_field(tuple@, name@),
{
    match tuple.get(name) {
        Some(ClarityValue::List(items)) => Some(items),
        _ => None,
    }
}

/// The field `name` of a tuple is there, and is a buffer of at most `size` bytes.
pub open spec fn has_buffer(tuple: Map<Seq<char>, ClarityValue>, name: Seq<char>, size: nat) -> bool {
    tuple.contains_key(name) && tuple[name] is Buffer && tuple[name]->Buffer_0@.len() <= size
}

/// The bytes in the field `name` of a tuple.
pub open spec fn buffer_field(tuple: Map<Seq<char>, ClarityValue>, name: Seq<char>) -> Seq<u8> {
    tuple[name]->Buffer_0@
}

/// Reads the field `name` of a tuple, if it is a buffer of at most `size` bytes.
pub(crate) fn get_buffer<'a>(tuple: &'a NameMap<ClarityValue>, name: &str, size: usize) -> (bytes: Option<
    &'a Vec<u8>,
>)
    ensures
        bytes is Some <==> has_buffer(tuple@, name@, size as nat),
        bytes matches Some(b) ==> b@ == buffer_field(tuple@, name@),
{
    match tuple.get(name) {
        Some(ClarityValue::Buffer(bytes)) => if bytes.len() <= size {
            Some(bytes)
        } else {
            None
        },
        _ => None,
    }
}

} // verus!
