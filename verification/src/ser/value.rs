//! Serializer for a single argument value.

use fluent::types::FluentNumber;
use vstd::prelude::*;
use vstd::utf8::decode_utf8;
use vstd::utf8::valid_utf8;

pub use super::unsupported::Unsupported;
pub use super::Error;
pub use super::ErrorView;

verus! {

/// `fluent::types::FluentNumber`: a double together with its formatting
/// options. It is held and passed on; nothing is known of what is inside.
#[verifier::external_type_specification]
#[verifier::external_body]
pub struct ExFluentNumber(FluentNumber);

/// The number that `fluent` makes of an `i128`: the double that the integer is
/// cast to, with the default formatting options. Trusted: this is the name of
/// what `<FluentNumber as From<i128>>::from` returns.
pub uninterp spec fn number_of_signed(v: i128) -> FluentNumber;

/// The number that `fluent` makes of a `u128`: the double that the integer is
/// cast to, with the default formatting options. Trusted: this is the name of
/// what `<FluentNumber as From<u128>>::from` returns.
pub uninterp spec fn number_of_unsigned(v: u128) -> FluentNumber;

/// Calls `<FluentNumber as From<i128>>::from`. Trusted: the result depends on
/// the argument alone, and [`number_of_signed`] is its name.
#[verifier::external_body]
fn number_from_i128(v: i128) -> (n: FluentNumber)
    ensures
        n == number_of_signed(v),
{
    FluentNumber::from(v)
}

/// Calls `<FluentNumber as From<u128>>::from`. Trusted: the result depends on
/// the argument alone, and [`number_of_unsigned`] is its name.
#[verifier::external_body]
fn number_from_u128(v: u128) -> (n: FluentNumber)
    ensures
        n == number_of_unsigned(v),
{
    FluentNumber::from(v)
}

/// Calls `std::str::from_utf8`. Trusted: it succeeds exactly on well-formed
/// UTF-8, and then returns the text that the bytes encode.
#[verifier::external_body]
fn str_from_utf8(bytes: &[u8]) -> (r: Option<&str>)
    ensures
        r is Some <==> valid_utf8(bytes@),
        r matches Some(s) ==> s@ == decode_utf8(bytes@),
{
    std::str::from_utf8(bytes).ok()
}

/// Calls `char::to_string`. Trusted: it returns the text made of that one
/// character.
#[verifier::external_body]
fn char_to_string(c: char) -> (s: String)
    ensures
        s@ == seq![c],
{
    c.to_string()
}

/// One argument value of a message: a string, a number, or nothing.
#[derive(Debug, PartialEq)]
pub enum Value {
    /// A piece of text.
    String(String),
    /// A number, as `fluent` holds it.
    Number(FluentNumber),
    /// No value.
    Absent,
}

/// The mathematical content of a [`Value`].
pub enum ValueView {
    String(Seq<char>),
    Number(FluentNumber),
    Absent,
}

impl View for Value {
    type V = ValueView;

    open spec fn view(&self) -> ValueView {
        match self {
            Value::String(s) => ValueView::String(s@),
            Value::Number(n) => ValueView::Number(*n),
            Value::Absent => ValueView::Absent,
        }
    }
}

/// Serializes one value into a [`Value`].
///
/// The supported shapes are booleans, numbers, characters, strings, UTF-8
/// bytes, the absent value, the unit value, unit structs and unit variants,
/// and options and newtypes of these. Sequences, tuples, maps and structs are
/// refused.
///
/// A serializer converts one value: every method takes it by value.
#[derive(Debug, Default)]
pub struct ValueSerializer {}

impl ValueSerializer {
    /// Creates a new [`ValueSerializer`].
    pub fn new() -> Self {
        ValueSerializer {}
    }

    /// A boolean becomes the number one if it is true, else the number zero.
    pub fn serialize_bool(self, v: bool) -> (r: Result<Value, Error>)
        ensures
            r matches Ok(value) && value@ == ValueView::Number(
                number_of_unsigned(if v { 1 } else { 0 }),
            ),
    {
        let num: u128 = if v { 1 } else { 0 };
        Ok(Value::Number(number_from_u128(num)))
    }

    /// An `i8` becomes the number that `fluent` makes of it.
    pub fn serialize_i8(self, v: i8) -> (r: Result<Value, Error>)
        ensures
            r matches Ok(value) && value@ == ValueView::Number(number_of_signed(v as i128)),
    {
        Ok(Value::Number(number_from_i128(v as i128)))
    }

    /// An `i16` becomes the number that `fluent` makes of it.
    pub fn serialize_i16(self, v: i16) -> (r: Result<Value, Error>)
        ensures
            r matches Ok(value) && value@ == ValueView::Number(number_of_signed(v as i128)),
    {
        Ok(Value::Number(number_from_i128(v as i128)))
    }

    /// An `i32` becomes the number that `fluent` makes of it.
    pub fn serialize_i32(self, v: i32) -> (r: Result<Value, Error>)
        ensures
            r matches Ok(value) && value@ == ValueView::Number(number_of_signed(v as i128)),
    {
        Ok(Value::Number(number_from_i128(v as i128)))
    }

    /// An `i64` becomes the number that `fluent` makes of it.
    pub fn serialize_i64(self, v: i64) -> (r: Result<Value, Error>)
        ensures
            r matches Ok(value) && value@ == ValueView::Number(number_of_signed(v as i128)),
    {
        Ok(Value::Number(number_from_i128(v as i128)))
    }

    /// An `i128` becomes the number that `fluent` makes of it.
    pub fn serialize_i128(self, v: i128) -> (r: Result<Value, Error>)
        ensures
            r matches Ok(value) && value@ == ValueView::Number(number_of_signed(v)),
    {
        Ok(Value::Number(number_from_i128(v)))
    }

    /// A `u8` becomes the number that `fluent` makes of it.
    pub fn serialize_u8(self, v: u8) -> (r: Result<Value, Error>)
        ensures
            r matches Ok(value) && value@ == ValueView::Number(number_of_unsigned(v as u128)),
    {
        Ok(Value::Number(number_from_u128(v as u128)))
    }

    /// A `u16` becomes the number that `fluent` makes of it.
    pub fn serialize_u16(self, v: u16) -> (r: Result<Value, Error>)
        ensures
            r matches Ok(value) && value@ == ValueView::Number(number_of_unsigned(v as u128)),
    {
        Ok(Value::Number(number_from_u128(v as u128)))
    }

    /// A `u32` becomes the number that `fluent` makes of it.
    pub fn serialize_u32(self, v: u32) -> (r: Result<Value, Error>)
        ensures
            r matches Ok(value) && value@ == ValueView::Number(number_of_unsigned(v as u128)),
    {
        Ok(Value::Number(number_from_u128(v as u128)))
    }

    /// A `u64` becomes the number that `fluent` makes of it.
    pub fn serialize_u64(self, v: u64) -> (r: Result<Value, Error>)
        ensures
            r matches Ok(value) && value@ == ValueView::Number(number_of_unsigned(v as u128)),
    {
        Ok(Value::Number(number_from_u128(v as u128)))
    }

    /// A `u128` becomes the number that `fluent` makes of it.
    pub fn serialize_u128(self, v: u128) -> (r: Result<Value, Error>)
        ensures
            r matches Ok(value) && value@ == ValueView::Number(number_of_unsigned(v)),
    {
        Ok(Value::Number(number_from_u128(v)))
    }

    /// A single-precision number becomes a number. The caller hands it over
    /// as the number that `fluent` makes of it.
    pub fn serialize_f32(self, v: FluentNumber) -> (r: Result<Value, Error>)
        ensures
            r matches Ok(value) && value@ == ValueView::Number(v),
    {
        Ok(Value::Number(v))
    }

    /// A double-precision number becomes a number. The caller hands it over
    /// as the number that `fluent` makes of it.
    pub fn serialize_f64(self, v: FluentNumber) -> (r: Result<Value, Error>)
        ensures
            r matches Ok(value) && value@ == ValueView::Number(v),
    {
        Ok(Value::Number(v))
    }

    /// A character becomes the string that holds it alone.
    pub fn serialize_char(self, v: char) -> (r: Result<Value, Error>)
        ensures
            r matches Ok(value) && value@ == ValueView::String(seq![v]),
    {
        Ok(Value::String(char_to_string(v)))
    }

    /// A string becomes an owned copy of itself.
    pub fn serialize_str(self, v: &str) -> (r: Result<Value, Error>)
        ensures
            r matches Ok(value) && value@ == ValueView::String(v@),
    {
        Ok(Value::String(v.to_string()))
    }

    /// Bytes become the string that they encode in UTF-8. Bytes that are not
    /// well-formed UTF-8 are refused.
    pub fn serialize_bytes(self, v: &[u8]) -> (r: Result<Value, Error>)
        ensures
            valid_utf8(v@) ==> (r matches Ok(value) && value@ == ValueView::String(
                decode_utf8(v@),
            )),
            !valid_utf8(v@) ==> (r matches Err(e) && e@ == ErrorView::NonUtf8Bytes),
    {
        match str_from_utf8(v) {
            Some(s) => self.serialize_str(s),
            None => Err(Error::NonUtf8Bytes),
        }
    }

    /// The absent value of an option becomes the absent value.
    pub fn serialize_none(self) -> (r: Result<Value, Error>)
        ensures
            r matches Ok(value) && value@ == ValueView::Absent,
    {
        Ok(Value::Absent)
    }

    /// The unit value becomes the absent value.
    pub fn serialize_unit(self) -> (r: Result<Value, Error>)
        ensures
            r matches Ok(value) && value@ == ValueView::Absent,
    {
        Ok(Value::Absent)
    }

    /// A unit struct becomes the name of its type.
    pub fn serialize_unit_struct(self, name: &'static str) -> (r: Result<Value, Error>)
        ensures
            r matches Ok(value) && value@ == ValueView::String(name@),
    {
        Ok(Value::String(name.to_string()))
    }

    /// A unit variant becomes the name of the variant.
    pub fn serialize_unit_variant(
        self,
        _name: &'static str,
        _variant_index: u32,
        variant: &'static str,
    ) -> (r: Result<Value, Error>)
        ensures
            r matches Ok(value) && value@ == ValueView::String(variant@),
    {
        Ok(Value::String(variant.to_string()))
    }

    /// A present value of an option becomes what the value inside became.
    pub fn serialize_some(self, inner: Result<Value, Error>) -> (r: Result<Value, Error>)
        ensures
            r == inner,
    {
        inner
    }

    /// A newtype struct becomes what the value inside became.
    pub fn serialize_newtype_struct(
        self,
        _name: &'static str,
        inner: Result<Value, Error>,
    ) -> (r: Result<Value, Error>)
        ensures
            r == inner,
    {
        inner
    }

    /// A newtype variant becomes what the value inside became.
    pub fn serialize_newtype_variant(
        self,
        _name: &'static str,
        _variant_index: u32,
        _variant: &'static str,
        inner: Result<Value, Error>,
    ) -> (r: Result<Value, Error>)
        ensures
            r == inner,
    {
        inner
    }

    /// A sequence is refused.
    pub fn serialize_seq(self, _len: Option<usize>) -> (r: Result<Unsupported<Value>, Error>)
        ensures
            r matches Err(e) && e@ == ErrorView::UnsupportedType,
    {
        Err(Error::UnsupportedType)
    }

    /// A tuple is refused.
    pub fn serialize_tuple(self, _len: usize) -> (r: Result<Unsupported<Value>, Error>)
        ensures
            r matches Err(e) && e@ == ErrorView::UnsupportedType,
    {
        Err(Error::UnsupportedType)
    }

    /// A tuple struct is refused.
    pub fn serialize_tuple_struct(
        self,
        _name: &'static str,
        _len: usize,
    ) -> (r: Result<Unsupported<Value>, Error>)
        ensures
            r matches Err(e) && e@ == ErrorView::UnsupportedType,
    {
        Err(Error::UnsupportedType)
    }

    /// A struct is refused.
    pub fn serialize_struct(
        self,
        _name: &'static str,
        _len: usize,
    ) -> (r: Result<Unsupported<Value>, Error>)
        ensures
            r matches Err(e) && e@ == ErrorView::UnsupportedType,
    {
        Err(Error::UnsupportedType)
    }

    /// A tuple variant is refused.
    pub fn serialize_tuple_variant(
        self,
        _name: &'static str,
        _variant_index: u32,
        _variant: &'static str,
        _len: usize,
    ) -> (r: Result<Unsupported<Value>, Error>)
        ensures
            r matches Err(e) && e@ == ErrorView::UnsupportedType,
    {
        Err(Error::UnsupportedType)
    }

    /// A map is refused.
    pub fn serialize_map(self, _len: Option<usize>) -> (r: Result<Unsupported<Value>, Error>)
        ensures
            r matches Err(e) && e@ == ErrorView::UnsupportedType,
    {
        Err(Error::UnsupportedType)
    }

    /// A struct variant is refused.
    pub fn serialize_struct_variant(
        self,
        _name: &'static str,
        _variant_index: u32,
        _variant: &'static str,
        _len: usize,
    ) -> (r: Result<Unsupported<Value>, Error>)
        ensures
            r matches Err(e) && e@ == ErrorView::UnsupportedType,
    {
        Err(Error::UnsupportedType)
    }
}

} // verus!
