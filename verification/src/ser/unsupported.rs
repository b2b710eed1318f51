//! The composite serializer of a converter that supports no composite.

use std::convert::Infallible;
use std::marker::PhantomData;

use vstd::pervasive::unreached;
use vstd::prelude::*;

use super::value::Value;
use super::Error;

verus! {

/// A composite serializer that cannot exist.
///
/// A converter names this type where it has to name the serializer of a
/// composite that it refuses. The call that would hand one out always fails
/// first, so no value of this type is ever made, and none of its methods can
/// be reached. `T` is what ending the composite would have returned.
pub struct Unsupported<T> {
    never: Infallible,
    marker: PhantomData<T>,
}

impl<T> Unsupported<T> {
    /// No value of this type exists.
    #[verifier::type_invariant]
    spec fn never_made(self) -> bool {
        false
    }

    /// Cannot be reached: there is no map to take a key.
    pub fn serialize_key(&mut self, _key: Result<Value, Error>) -> Result<(), Error> {
        proof {
            use_type_invariant(&*self);
        }
        unreached()
    }

    /// Cannot be reached: there is no map to take a value.
    pub fn serialize_value(&mut self, _value: Result<Value, Error>) -> Result<(), Error> {
        proof {
            use_type_invariant(&*self);
        }
        unreached()
    }

    /// Cannot be reached: there is no sequence or tuple to take an element.
    pub fn serialize_element(&mut self, _value: Result<Value, Error>) -> Result<(), Error> {
        proof {
            use_type_invariant(&*self);
        }
        unreached()
    }

    /// Cannot be reached: there is no struct to take a field.
    pub fn serialize_field(
        &mut self,
        _key: &'static str,
        _value: Result<Value, Error>,
    ) -> Result<(), Error> {
        proof {
            use_type_invariant(&*self);
        }
        unreached()
    }

    /// Cannot be reached: there is no composite to end.
    pub fn end(self) -> Result<T, Error> {
        proof {
            use_type_invariant(&self);
        }
        unreached()
    }
}

} // verus!
