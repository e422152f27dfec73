//! Conversion between values and the messages that carry them over the wire.

use vstd::prelude::*;

verus! {

/// Why a message does not describe a value.
#[derive(Clone, Copy, Debug, PartialEq, Eq)]
pub enum TryFromProtoError {
    /// The named field is required and is absent.
    MissingField(&'static str),
}

/// A value with a message type.
///
/// The two conversions are described by `encoding` and `decoding`, and
/// `decode_encoding` and `encode_decoding` say that these undo each other.
pub trait RustType<Proto>: Sized {
    /// The message that carries this value.
    spec fn encoding(&self) -> Proto;

    /// The value that the message describes, or what is wrong with the message.
    spec fn decoding(proto: Proto) -> Result<Self, TryFromProtoError>;

    /// Whether `from_proto` may be called on the message at all.
    spec fn may_decode(proto: Proto) -> bool;

    fn into_proto(&self) -> (proto: Proto)
        ensures
            proto == self.encoding(),
    ;

    fn from_proto(proto: Proto) -> (value: Result<Self, TryFromProtoError>)
        requires
            Self::may_decode(proto),
        ensures
            value == Self::decoding(proto),
    ;

    /// Decoding what was encoded gives the value back.
    proof fn decode_encoding(&self)
        ensures
            Self::may_decode(self.encoding()),
            Self::decoding(self.encoding()) == Ok::<Self, TryFromProtoError>(*self),
    ;

    /// Encoding what was decoded gives the message back.
    proof fn encode_decoding(proto: Proto)
        requires
            Self::may_decode(proto),
            Self::decoding(proto) is Ok,
        ensures
            Self::decoding(proto)->Ok_0.encoding() == proto,
    ;
}

/// An optional value is carried by an optional message.
impl<R: RustType<P>, P> RustType<Option<P>> for Option<R> {
    open spec fn encoding(&self) -> Option<P> {
        match self {
            Some(value) => Some(value.encoding()),
            None => None,
        }
    }

    open spec fn decoding(proto: Option<P>) -> Result<Self, TryFromProtoError> {
        match proto {
            Some(proto) => match R::decoding(proto) {
                Ok(value) => Ok(Some(value)),
                Err(err) => Err(err),
            },
            None => Ok(None),
        }
    }

    open spec fn may_decode(proto: Option<P>) -> bool {
        proto matches Some(proto) ==> R::may_decode(proto)
    }

    fn into_proto(&self) -> (proto: Option<P>) {
        match self {
            Some(value) => Some(value.into_proto()),
            None => None,
        }
    }

    fn from_proto(proto: Option<P>) -> (value: Result<Self, TryFromProtoError>) {
        match proto {
            Some(proto) => match R::from_proto(proto) {
                Ok(value) => Ok(Some(value)),
                Err(err) => Err(err),
            },
            None => Ok(None),
        }
    }

    proof fn decode_encoding(&self) {
        if let Some(value) = self {
            value.decode_encoding();
        }
    }

    proof fn encode_decoding(proto: Option<P>) {
        if let Some(proto) = proto {
            R::encode_decoding(proto);
        }
    }
}

/// The value that a required field describes: `field` names it in the error for
/// its absence.
pub open spec fn required<R: RustType<P>, P>(
    proto: Option<P>,
    field: &'static str,
) -> Result<R, TryFromProtoError> {
    match proto {
        Some(proto) => R::decoding(proto),
        None => Err(TryFromProtoError::MissingField(field)),
    }
}

/// Decodes a required field.
pub fn into_rust_if_some<R: RustType<P>, P>(proto: Option<P>, field: &'static str) -> (value:
    Result<R, TryFromProtoError>)
    requires
        proto matches Some(proto) ==> R::may_decode(proto),
    ensures
        value == required::<R, P>(proto, field),
{
    match proto {
        Some(proto) => R::from_proto(proto),
        None => Err(TryFromProtoError::MissingField(field)),
    }
}

/// An absent optional field is no value and no error; an absent required field is an
/// error that names it. A field that is there is decoded in either case.
pub proof fn absence_is_an_error_where_required<R: RustType<P>, P>(proto: P, field: &'static str)
    ensures
        Option::<R>::may_decode(None::<P>),
        Option::<R>::may_decode(Some(proto)) == R::may_decode(proto),
        Option::<R>::decoding(None::<P>) == Ok::<Option<R>, TryFromProtoError>(None),
        required::<R, P>(None, field) == Err::<R, TryFromProtoError>(
            TryFromProtoError::MissingField(field),
        ),
        required::<R, P>(Some(proto), field) == R::decoding(proto),
        match Option::<R>::decoding(Some(proto)) {
            Ok(value) => value is Some && R::decoding(proto) == Ok::<R, TryFromProtoError>(value->0),
            Err(err) => R::decoding(proto) == Err::<R, TryFromProtoError>(err),
        },
{
}

/// An optional value is sent if it is there, and nothing is sent otherwise.
pub proof fn optional_value_is_sent_if_there<R: RustType<P>, P>(value: R)
    ensures
        Some(value).encoding() == Some(value.encoding()),
        None::<R>.encoding() == None::<P>,
{
}

} // verus!
