//! Serializer for [`FluentArgs`].

use std::borrow::Cow;

use fluent::types::FluentNumber;
use fluent::FluentArgs;
use fluent::FluentValue;
use vstd::prelude::*;

use super::unsupported::Unsupported;
use super::value::Value;
use super::value::ValueView;
use super::Error;
use super::ErrorView;

verus! {

/// `fluent::FluentArgs`: the named arguments of a message, held in a vector
/// that is kept sorted by name. Nothing is known of what is inside but through
/// [`args_map`].
#[verifier::external_type_specification]
#[verifier::external_body]
pub struct ExFluentArgs<'args>(FluentArgs<'args>);

/// The arguments that a [`FluentArgs`] holds, as a map from each name to its
/// value. Entries whose value is neither a string, a number nor the absent
/// value are not part of it. Trusted: [`args_new`] and [`args_set`] say how
/// the calls into `fluent` make and change it.
pub uninterp spec fn args_map(args: FluentArgs<'static>) -> Map<Seq<char>, ValueView>;

/// The map without any argument.
pub open spec fn no_args() -> Map<Seq<char>, ValueView> {
    Map::empty()
}

/// Calls `FluentArgs::new`. Trusted: it returns a collection without entries.
#[verifier::external_body]
fn args_new() -> (args: FluentArgs<'static>)
    ensures
        args_map(args) == no_args(),
{
    FluentArgs::new()
}

/// Calls `FluentArgs::set` with `value` as the `FluentValue` of the same
/// kind. Trusted: it replaces the value of the entry named `key` if there is
/// one, and else adds the entry; no other entry changes.
#[verifier::external_body]
fn args_set(args: &mut FluentArgs<'static>, key: Cow<'static, str>, value: Value)
    ensures
        args_map(*final(args)) == args_map(*old(args)).insert(key@, value@),
{
    let value = match value {
        Value::String(s) => FluentValue::String(Cow::Owned(s)),
        Value::Number(n) => FluentValue::Number(n),
        Value::Absent => FluentValue::None,
    };
    args.set(key, value);
}

/// What a map serializer knows between two calls: the arguments collected so
/// far, and the key that still waits for its value.
pub struct MapState {
    pub entries: Map<Seq<char>, ValueView>,
    pub pending: Option<Seq<char>>,
}

/// The mathematical content of the outcome of converting one value.
pub open spec fn converted(r: Result<Value, Error>) -> Result<ValueView, ErrorView> {
    match r {
        Ok(v) => Ok(v@),
        Err(e) => Err(e@),
    }
}

/// The mathematical content of the outcome of one step.
pub open spec fn outcome(r: Result<(), Error>) -> Result<(), ErrorView> {
    match r {
        Ok(_) => Ok(()),
        Err(e) => Err(e@),
    }
}

impl MapState {
    /// The outcome of presenting a key that was converted to `key`.
    pub open spec fn key_outcome(self, key: Result<ValueView, ErrorView>) -> Result<(), ErrorView> {
        match key {
            Err(e) => Err(e),
            Ok(ValueView::String(_)) => if self.pending is Some {
                Err(ErrorView::InvalidSerMap)
            } else {
                Ok(())
            },
            Ok(_) => Err(ErrorView::UnsupportedType),
        }
    }

    /// The state after presenting a key that was converted to `key`. A string
    /// becomes the pending key, also where another key was pending.
    pub open spec fn after_key(self, key: Result<ValueView, ErrorView>) -> MapState {
        match key {
            Ok(ValueView::String(k)) => MapState { entries: self.entries, pending: Some(k) },
            _ => self,
        }
    }

    /// The outcome of presenting a value that was converted to `value`.
    pub open spec fn value_outcome(
        self,
        value: Result<ValueView, ErrorView>,
    ) -> Result<(), ErrorView> {
        match self.pending {
            None => Err(ErrorView::InvalidSerMap),
            Some(_) => match value {
                Ok(_) => Ok(()),
                Err(e) => Err(e),
            },
        }
    }

    /// The state after presenting a value that was converted to `value`. The
    /// pending key is used up, also where the value failed to convert.
    pub open spec fn after_value(self, value: Result<ValueView, ErrorView>) -> MapState {
        match (self.pending, value) {
            (Some(k), Ok(v)) => MapState { entries: self.entries.insert(k, v), pending: None },
            _ => MapState { entries: self.entries, pending: None },
        }
    }

    /// The outcome of ending the map.
    pub open spec fn end_outcome(self) -> Result<(), ErrorView> {
        if self.pending is None {
            Ok(())
        } else {
            Err(ErrorView::InvalidSerMap)
        }
    }
}

/// A key and then its value, presented to a map that waits for no value,
/// both succeed and set the argument named by the key. Arguments under other
/// names stay as they were, so maps and structs that are serialized one after
/// the other into the same arguments are merged.
pub proof fn lemma_pair_sets_argument(state: MapState, key: Seq<char>, value: ValueView)
    requires
        state.pending is None,
    ensures
        state.key_outcome(Ok(ValueView::String(key))) == Ok::<(), ErrorView>(()),
        state.after_key(Ok(ValueView::String(key))).value_outcome(Ok(value)) == Ok::<
            (),
            ErrorView,
        >(()),
        state.after_key(Ok(ValueView::String(key))).after_value(Ok(value)) == (MapState {
            entries: state.entries.insert(key, value),
            pending: None,
        }),
        forall|other: Seq<char>|
            other != key && state.entries.contains_key(other) ==> state.entries.insert(
                key,
                value,
            ).contains_key(other) && state.entries.insert(key, value)[other]
                == state.entries[other],
{
}

/// Two keys in a row, with no value between them, are an invalid call
/// sequence: the second key fails, whatever was pending before the first.
pub proof fn lemma_second_key_in_a_row_fails(state: MapState, first: Seq<char>, second: Seq<char>)
    ensures
        state.after_key(Ok(ValueView::String(first))).key_outcome(Ok(ValueView::String(second)))
            == Err::<(), ErrorView>(ErrorView::InvalidSerMap),
{
}

/// A map that ends right after a key, before the value of that key, fails
/// with an invalid call sequence.
pub proof fn lemma_end_after_key_fails(state: MapState, key: Seq<char>)
    ensures
        state.after_key(Ok(ValueView::String(key))).end_outcome() == Err::<(), ErrorView>(
            ErrorView::InvalidSerMap,
        ),
{
}

/// A value with no key before it is an invalid call sequence, and sets no
/// argument.
pub proof fn lemma_value_without_key_fails(state: MapState, value: Result<ValueView, ErrorView>)
    requires
        state.pending is None,
    ensures
        state.value_outcome(value) == Err::<(), ErrorView>(ErrorView::InvalidSerMap),
        state.after_value(value) == state,
{
}

/// A key that was converted to anything but a string is an unsupported type,
/// and leaves the map as it was.
pub proof fn lemma_key_must_be_string(state: MapState, key: ValueView)
    requires
        !(key is String),
    ensures
        state.key_outcome(Ok(key)) == Err::<(), ErrorView>(ErrorView::UnsupportedType),
        state.after_key(Ok(key)) == state,
{
}

/// Setting an argument that is already set overwrites its value: the last
/// write wins, and the set of names is the same as after the first write, so
/// no name occurs twice.
pub proof fn lemma_last_write_wins(
    entries: Map<Seq<char>, ValueView>,
    key: Seq<char>,
    first: ValueView,
    second: ValueView,
)
    ensures
        after_field(after_field(entries, key, Ok(first)), key, Ok(second)) == after_field(
            entries,
            key,
            Ok(second),
        ),
        after_field(after_field(entries, key, Ok(first)), key, Ok(second))[key] == second,
        after_field(after_field(entries, key, Ok(first)), key, Ok(second)).dom() == after_field(
            entries,
            key,
            Ok(first),
        ).dom(),
{
}

/// A field that is set leaves every argument under another name as it was:
/// what an earlier struct or map has set stays set when a later one is merged
/// into the same arguments.
pub proof fn lemma_field_keeps_other_arguments(
    entries: Map<Seq<char>, ValueView>,
    key: Seq<char>,
    value: ValueView,
    other: Seq<char>,
)
    requires
        other != key,
    ensures
        field_outcome(Ok(value)) == Ok::<(), ErrorView>(()),
        after_field(entries, key, Ok(value)).contains_key(key),
        after_field(entries, key, Ok(value))[key] == value,
        after_field(entries, key, Ok(value)).contains_key(other) == entries.contains_key(other),
        entries.contains_key(other) ==> after_field(entries, key, Ok(value))[other]
            == entries[other],
{
}

/// A field whose value failed to convert fails with the same error and sets
/// no argument: what earlier fields have set stays set.
pub proof fn lemma_failed_field_changes_nothing(
    entries: Map<Seq<char>, ValueView>,
    key: Seq<char>,
    error: ErrorView,
)
    ensures
        field_outcome(Err(error)) == Err::<(), ErrorView>(error),
        after_field(entries, key, Err(error)) == entries,
{
}

/// Map serialization interface.
pub struct SerMap<'a> {
    pub args: &'a mut FluentArgs<'static>,
    pub current_key: Option<String>,
}

impl<'a> SerMap<'a> {
    /// The arguments collected so far and the pending key.
    pub open spec fn state(self) -> MapState {
        MapState {
            entries: args_map(*self.args),
            pending: match self.current_key {
                Some(k) => Some(k@),
                None => None,
            },
        }
    }

    /// Takes the next key of the map, already converted by a
    /// [`ValueSerializer`](super::ValueSerializer).
    ///
    /// The key must have become a string.
    pub fn serialize_key(&mut self, key: Result<Value, Error>) -> (r: Result<(), Error>)
        ensures
            outcome(r) == old(self).state().key_outcome(converted(key)),
            final(self).state() == old(self).state().after_key(converted(key)),
            *final(final(self).args) == *final(old(self).args),
    {
        match key {
            Err(e) => Err(e),
            Ok(Value::String(k)) => {
                let was_pending = self.current_key.is_some();
                self.current_key = Some(k);
                if was_pending {
                    Err(Error::InvalidSerMap)
                } else {
                    Ok(())
                }
            },
            Ok(_) => Err(Error::UnsupportedType),
        }
    }

    /// Takes the value that belongs to the pending key, already converted by a
    /// [`ValueSerializer`](super::ValueSerializer), and sets the argument.
    pub fn serialize_value(&mut self, value: Result<Value, Error>) -> (r: Result<(), Error>)
        ensures
            outcome(r) == old(self).state().value_outcome(converted(value)),
            final(self).state() == old(self).state().after_value(converted(value)),
            *final(final(self).args) == *final(old(self).args),
    {
        match self.current_key.take() {
            Some(key) => {
                match value {
                    Ok(v) => {
                        args_set(self.args, Cow::Owned(key), v);
                        Ok(())
                    },
                    Err(e) => Err(e),
                }
            },
            None => Err(Error::InvalidSerMap),
        }
    }

    /// Ends the map. A key without a value is an error.
    pub fn end(self) -> (r: Result<(), Error>)
        ensures
            outcome(r) == self.state().end_outcome(),
            args_map(*final(self.args)) == self.state().entries,
    {
        if self.current_key.is_none() {
            Ok(())
        } else {
            Err(Error::InvalidSerMap)
        }
    }
}

/// Struct serialization interface.
pub struct SerStruct<'a> {
    pub args: &'a mut FluentArgs<'static>,
}

/// The arguments after a field named `key` whose value was converted to
/// `value`: the field is set where the conversion succeeded, and nothing
/// changes where it failed.
pub open spec fn after_field(
    entries: Map<Seq<char>, ValueView>,
    key: Seq<char>,
    value: Result<ValueView, ErrorView>,
) -> Map<Seq<char>, ValueView> {
    match value {
        Ok(v) => entries.insert(key, v),
        Err(_) => entries,
    }
}

/// The outcome of a field whose value was converted to `value`.
pub open spec fn field_outcome(value: Result<ValueView, ErrorView>) -> Result<(), ErrorView> {
    match value {
        Ok(_) => Ok(()),
        Err(e) => Err(e),
    }
}

impl<'a> SerStruct<'a> {
    /// The arguments collected so far.
    pub open spec fn entries(self) -> Map<Seq<char>, ValueView> {
        args_map(*self.args)
    }

    /// Takes the next field of the struct, its value already converted by a
    /// [`ValueSerializer`](super::ValueSerializer), and sets the argument
    /// named like the field.
    pub fn serialize_field(
        &mut self,
        key: &'static str,
        value: Result<Value, Error>,
    ) -> (r: Result<(), Error>)
        ensures
            outcome(r) == field_outcome(converted(value)),
            final(self).entries() == after_field(old(self).entries(), key@, converted(value)),
            *final(final(self).args) == *final(old(self).args),
    {
        match value {
            Ok(v) => {
                args_set(self.args, Cow::Borrowed(key), v);
                Ok(())
            },
            Err(e) => Err(e),
        }
    }

    /// Ends the struct.
    pub fn end(self) -> (r: Result<(), Error>)
        ensures
            r is Ok,
            args_map(*final(self.args)) == self.entries(),
    {
        Ok(())
    }
}

/// Struct variant serialization interface.
pub struct SerStructVariant<'a> {
    pub args: &'a mut FluentArgs<'static>,
}

impl<'a> SerStructVariant<'a> {
    /// The arguments collected so far.
    pub open spec fn entries(self) -> Map<Seq<char>, ValueView> {
        args_map(*self.args)
    }

    /// Takes the next field of the variant, its value already converted by a
    /// [`ValueSerializer`](super::ValueSerializer), and sets the argument
    /// named like the field.
    pub fn serialize_field(
        &mut self,
        key: &'static str,
        value: Result<Value, Error>,
    ) -> (r: Result<(), Error>)
        ensures
            outcome(r) == field_outcome(converted(value)),
            final(self).entries() == after_field(old(self).entries(), key@, converted(value)),
            *final(final(self).args) == *final(old(self).args),
    {
        match value {
            Ok(v) => {
                args_set(self.args, Cow::Borrowed(key), v);
                Ok(())
            },
            Err(e) => Err(e),
        }
    }

    /// Ends the variant.
    pub fn end(self) -> (r: Result<(), Error>)
        ensures
            r is Ok,
            args_map(*final(self.args)) == self.entries(),
    {
        Ok(())
    }
}

/// Serialize into a [`FluentArgs`]. Can be used multiple times to merge
/// structures.
///
/// The supported shapes are:
///
/// - Maps from strings to values that a
///   [`ValueSerializer`](super::ValueSerializer) supports.
/// - Structs and struct variants of such values.
/// - The absent value and the unit shapes, which add nothing.
/// - Options and newtypes of supported shapes.
pub struct ArgsSerializer {
    args: FluentArgs<'static>,
}

impl View for ArgsSerializer {
    type V = Map<Seq<char>, ValueView>;

    closed spec fn view(&self) -> Map<Seq<char>, ValueView> {
        args_map(self.args)
    }
}

impl ArgsSerializer {
    /// Creates a new [`ArgsSerializer`].
    pub fn new() -> (ser: Self)
        ensures
            ser@ == no_args(),
    {
        ArgsSerializer { args: args_new() }
    }

    /// Creates an [`ArgsSerializer`] based on an existing argument map.
    pub fn from_existing(args: FluentArgs<'static>) -> (ser: Self)
        ensures
            ser@ == args_map(args),
    {
        ArgsSerializer { args }
    }

    /// Returns the built [`FluentArgs`] value.
    pub fn done(self) -> (args: FluentArgs<'static>)
        ensures
            args_map(args) == self@,
    {
        self.args
    }

    /// A boolean is refused.
    pub fn serialize_bool(&mut self, _v: bool) -> (r: Result<(), Error>)
        ensures
            r matches Err(e) && e@ == ErrorView::UnsupportedType,
            final(self)@ == old(self)@,
    {
        Err(Error::UnsupportedType)
    }

    /// An `i8` is refused.
    pub fn serialize_i8(&mut self, _v: i8) -> (r: Result<(), Error>)
        ensures
            r matches Err(e) && e@ == ErrorView::UnsupportedType,
            final(self)@ == old(self)@,
    {
        Err(Error::UnsupportedType)
    }

    /// An `i16` is refused.
    pub fn serialize_i16(&mut self, _v: i16) -> (r: Result<(), Error>)
        ensures
            r matches Err(e) && e@ == ErrorView::UnsupportedType,
            final(self)@ == old(self)@,
    {
        Err(Error::UnsupportedType)
    }

    /// An `i32` is refused.
    pub fn serialize_i32(&mut self, _v: i32) -> (r: Result<(), Error>)
        ensures
            r matches Err(e) && e@ == ErrorView::UnsupportedType,
            final(self)@ == old(self)@,
    {
        Err(Error::UnsupportedType)
    }

    /// An `i64` is refused.
    pub fn serialize_i64(&mut self, _v: i64) -> (r: Result<(), Error>)
        ensures
            r matches Err(e) && e@ == ErrorView::UnsupportedType,
            final(self)@ == old(self)@,
    {
        Err(Error::UnsupportedType)
    }

    /// An `i128` is refused.
    pub fn serialize_i128(&mut self, _v: i128) -> (r: Result<(), Error>)
        ensures
            r matches Err(e) && e@ == ErrorView::UnsupportedType,
            final(self)@ == old(self)@,
    {
        Err(Error::UnsupportedType)
    }

    /// A `u8` is refused.
    pub fn serialize_u8(&mut self, _v: u8) -> (r: Result<(), Error>)
        ensures
            r matches Err(e) && e@ == ErrorView::UnsupportedType,
            final(self)@ == old(self)@,
    {
        Err(Error::UnsupportedType)
    }

    /// A `u16` is refused.
    pub fn serialize_u16(&mut self, _v: u16) -> (r: Result<(), Error>)
        ensures
            r matches Err(e) && e@ == ErrorView::UnsupportedType,
            final(self)@ == old(self)@,
    {
        Err(Error::UnsupportedType)
    }

    /// A `u32` is refused.
    pub fn serialize_u32(&mut self, _v: u32) -> (r: Result<(), Error>)
        ensures
            r matches Err(e) && e@ == ErrorView::UnsupportedType,
            final(self)@ == old(self)@,
    {
        Err(Error::UnsupportedType)
    }

    /// A `u64` is refused.
    pub fn serialize_u64(&mut self, _v: u64) -> (r: Result<(), Error>)
        ensures
            r matches Err(e) && e@ == ErrorView::UnsupportedType,
            final(self)@ == old(self)@,
    {
        Err(Error::UnsupportedType)
    }

    /// A `u128` is refused.
    pub fn serialize_u128(&mut self, _v: u128) -> (r: Result<(), Error>)
        ensures
            r matches Err(e) && e@ == ErrorView::UnsupportedType,
            final(self)@ == old(self)@,
    {
        Err(Error::UnsupportedType)
    }

    /// A single-precision number is refused.
    pub fn serialize_f32(&mut self, _v: FluentNumber) -> (r: Result<(), Error>)
        ensures
            r matches Err(e) && e@ == ErrorView::UnsupportedType,
            final(self)@ == old(self)@,
    {
        Err(Error::UnsupportedType)
    }

    /// A double-precision number is refused.
    pub fn serialize_f64(&mut self, _v: FluentNumber) -> (r: Result<(), Error>)
        ensures
            r matches Err(e) && e@ == ErrorView::UnsupportedType,
            final(self)@ == old(self)@,
    {
        Err(Error::UnsupportedType)
    }

    /// A character is refused.
    pub fn serialize_char(&mut self, _v: char) -> (r: Result<(), Error>)
        ensures
            r matches Err(e) && e@ == ErrorView::UnsupportedType,
            final(self)@ == old(self)@,
    {
        Err(Error::UnsupportedType)
    }

    /// A string is refused.
    pub fn serialize_str(&mut self, _v: &str) -> (r: Result<(), Error>)
        ensures
            r matches Err(e) && e@ == ErrorView::UnsupportedType,
            final(self)@ == old(self)@,
    {
        Err(Error::UnsupportedType)
    }

    /// A byte string is refused.
    pub fn serialize_bytes(&mut self, _v: &[u8]) -> (r: Result<(), Error>)
        ensures
            r matches Err(e) && e@ == ErrorView::UnsupportedType,
            final(self)@ == old(self)@,
    {
        Err(Error::UnsupportedType)
    }

    /// The absent value of an option adds nothing.
    pub fn serialize_none(&mut self) -> (r: Result<(), Error>)
        ensures
            r is Ok,
            final(self)@ == old(self)@,
    {
        Ok(())
    }

    /// The unit value adds nothing.
    pub fn serialize_unit(&mut self) -> (r: Result<(), Error>)
        ensures
            r is Ok,
            final(self)@ == old(self)@,
    {
        Ok(())
    }

    /// A unit struct adds nothing.
    pub fn serialize_unit_struct(&mut self, _name: &'static str) -> (r: Result<(), Error>)
        ensures
            r is Ok,
            final(self)@ == old(self)@,
    {
        Ok(())
    }

    /// A unit variant adds nothing.
    pub fn serialize_unit_variant(
        &mut self,
        _name: &'static str,
        _variant_index: u32,
        _variant: &'static str,
    ) -> (r: Result<(), Error>)
        ensures
            r is Ok,
            final(self)@ == old(self)@,
    {
        Ok(())
    }

    /// A present value of an option has been serialized into this serializer
    /// with the outcome `inner`, which is the outcome of the option.
    pub fn serialize_some(&mut self, inner: Result<(), Error>) -> (r: Result<(), Error>)
        ensures
            r == inner,
            final(self)@ == old(self)@,
    {
        inner
    }

    /// The value inside a newtype struct has been serialized into this
    /// serializer with the outcome `inner`, which is the outcome of the
    /// struct.
    pub fn serialize_newtype_struct(
        &mut self,
        _name: &'static str,
        inner: Result<(), Error>,
    ) -> (r: Result<(), Error>)
        ensures
            r == inner,
            final(self)@ == old(self)@,
    {
        inner
    }

    /// The value inside a newtype variant has been serialized into this
    /// serializer with the outcome `inner`, which is the outcome of the
    /// variant.
    pub fn serialize_newtype_variant(
        &mut self,
        _name: &'static str,
        _variant_index: u32,
        _variant: &'static str,
        inner: Result<(), Error>,
    ) -> (r: Result<(), Error>)
        ensures
            r == inner,
            final(self)@ == old(self)@,
    {
        inner
    }

    /// A sequence is refused.
    pub fn serialize_seq(&mut self, _len: Option<usize>) -> (r: Result<Unsupported<()>, Error>)
        ensures
            r matches Err(e) && e@ == ErrorView::UnsupportedType,
            final(self)@ == old(self)@,
    {
        Err(Error::UnsupportedType)
    }

    /// A tuple is refused.
    pub fn serialize_tuple(&mut self, _len: usize) -> (r: Result<Unsupported<()>, Error>)
        ensures
            r matches Err(e) && e@ == ErrorView::UnsupportedType,
            final(self)@ == old(self)@,
    {
        Err(Error::UnsupportedType)
    }

    /// A tuple struct is refused.
    pub fn serialize_tuple_struct(
        &mut self,
        _name: &'static str,
        _len: usize,
    ) -> (r: Result<Unsupported<()>, Error>)
        ensures
            r matches Err(e) && e@ == ErrorView::UnsupportedType,
            final(self)@ == old(self)@,
    {
        Err(Error::UnsupportedType)
    }

    /// A tuple variant is refused.
    pub fn serialize_tuple_variant(
        &mut self,
        _name: &'static str,
        _variant_index: u32,
        _variant: &'static str,
        _len: usize,
    ) -> (r: Result<Unsupported<()>, Error>)
        ensures
            r matches Err(e) && e@ == ErrorView::UnsupportedType,
            final(self)@ == old(self)@,
    {
        Err(Error::UnsupportedType)
    }

    /// Starts a map. Its keys and values go to the [`SerMap`] that is
    /// returned, which writes into the arguments of this serializer.
    pub fn serialize_map<'a>(&'a mut self, _len: Option<usize>) -> (r: Result<SerMap<'a>, Error>)
        ensures
            r matches Ok(map) && map.state() == (MapState { entries: old(self)@, pending: None })
                && final(self)@ == args_map(*final(map.args)),
    {
        Ok(SerMap { args: &mut self.args, current_key: None })
    }

    /// Starts a struct. Its fields go to the [`SerStruct`] that is returned,
    /// which writes into the arguments of this serializer.
    pub fn serialize_struct<'a>(
        &'a mut self,
        _name: &'static str,
        _len: usize,
    ) -> (r: Result<SerStruct<'a>, Error>)
        ensures
            r matches Ok(fields) && fields.entries() == old(self)@ && final(self)@ == args_map(
                *final(fields.args),
            ),
    {
        Ok(SerStruct { args: &mut self.args })
    }

    /// Starts a struct variant. Its fields go to the [`SerStructVariant`]
    /// that is returned, which writes into the arguments of this serializer.
    pub fn serialize_struct_variant<'a>(
        &'a mut self,
        _name: &'static str,
        _variant_index: u32,
        _variant: &'static str,
        _len: usize,
    ) -> (r: Result<SerStructVariant<'a>, Error>)
        ensures
            r matches Ok(fields) && fields.entries() == old(self)@ && final(self)@ == args_map(
                *final(fields.args),
            ),
    {
        Ok(SerStructVariant { args: &mut self.args })
    }
}

impl Default for ArgsSerializer {
    fn default() -> (ser: Self)
        ensures
            ser@ == no_args(),
    {
        ArgsSerializer::new()
    }
}

impl From<FluentArgs<'static>> for ArgsSerializer {
    fn from(args: FluentArgs<'static>) -> (ser: Self)
        ensures
            ser@ == args_map(args),
    {
        ArgsSerializer { args }
    }
}

impl vstd::std_specs::convert::FromSpecImpl<FluentArgs<'static>> for ArgsSerializer {
    open spec fn obeys_from_spec() -> bool {
        true
    }

    closed spec fn from_spec(args: FluentArgs<'static>) -> Self {
        ArgsSerializer { args }
    }
}

} // verus!
