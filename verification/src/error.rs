//! The error-output convention and the glue that turns it into a
//! recoverable result. Every boundary-crossing call hands the foreign
//! side a caller-allocated, initially empty error slot; a populated
//! slot after the call signals failure and takes precedence over
//! whatever value the call appeared to return.

use vstd::prelude::*;

use crate::nvim_string::NvimString;
use crate::object::ObjectKind;

verus! {

/// A dynamic value did not match the statically expected shape, or
/// carried a number outside the range the expected native type can
/// hold.
#[derive(Clone, Copy, Debug, PartialEq, Eq, Structural)]
pub enum ConversionError {
    WrongType { expected: ObjectKind, found: ObjectKind },
    OutOfRange { found: i64 },
}

/// The two classes of failure the host API reports through the
/// error-output slot.
#[derive(Clone, Copy, Debug, PartialEq, Eq, Structural)]
pub enum ErrorKind {
    Exception,
    Validation,
}

/// Mathematical image of [`Error`], with the message as a byte
/// sequence.
pub enum ErrorView {
    InitFailed(i32),
    CouldntTriggerAsyncHandle,
    Conversion(ConversionError),
    Foreign(ErrorKind, Seq<u8>),
}

/// Every failure a boundary-crossing operation can surface: the
/// foreign initializer returned a negative status, the wake primitive
/// rejected a request, a dynamic value had the wrong shape, or the
/// host API reported a domain error of its own.
#[derive(Clone, Debug)]
pub enum Error {
    /// The foreign initializer returned this negative status.
    InitFailed(i32),
    /// The foreign wake primitive rejected the request.
    CouldntTriggerAsyncHandle,
    /// A dynamic value did not convert to the expected shape.
    Conversion(ConversionError),
    /// The host API populated the error-output slot with this kind and
    /// message.
    Foreign(ErrorKind, NvimString),
}

impl View for Error {
    type V = ErrorView;

    open spec fn view(&self) -> ErrorView {
        match self {
            Error::InitFailed(code) => ErrorView::InitFailed(*code),
            Error::CouldntTriggerAsyncHandle => ErrorView::CouldntTriggerAsyncHandle,
            Error::Conversion(c) => ErrorView::Conversion(*c),
            Error::Foreign(kind, msg) => ErrorView::Foreign(*kind, msg@),
        }
    }
}

/// The caller-allocated error-output slot handed to a foreign call:
/// empty before the call, and populated by the foreign side exactly
/// when the call failed.
#[derive(Clone, Debug)]
pub struct ErrorSlot {
    pub slot: Option<(ErrorKind, NvimString)>,
}

impl View for ErrorSlot {
    type V = Option<(ErrorKind, Seq<u8>)>;

    open spec fn view(&self) -> Option<(ErrorKind, Seq<u8>)> {
        match self.slot {
            None => None,
            Some((kind, ref msg)) => Some((kind, msg@)),
        }
    }
}

impl ErrorSlot {
    /// A fresh, empty slot, ready to be handed to a foreign call.
    pub fn new() -> (r: ErrorSlot)
        ensures
            r@ is None,
    {
        ErrorSlot { slot: None }
    }

    /// A slot as the foreign side leaves it after a failed call.
    pub fn populated(kind: ErrorKind, message: NvimString) -> (r: ErrorSlot)
        ensures
            r@ == Some((kind, message@)),
    {
        ErrorSlot { slot: Some((kind, message)) }
    }

    pub fn is_err(&self) -> (r: bool)
        ensures
            r == (self@ is Some),
    {
        match self.slot {
            Some(_) => true,
            None => false,
        }
    }

    /// Consumes the slot after a foreign call: a populated slot becomes
    /// the foreign error; an empty one lets `value` through.
    pub fn into_err_or<T>(self, value: T) -> (r: Result<T, Error>)
        ensures
            self@ is None ==> r == Ok::<T, Error>(value),
            self@ matches Some((kind, msg)) ==> r matches Err(e) && e@ == ErrorView::Foreign(
                kind,
                msg,
            ),
    {
        match self.slot {
            None => Ok(value),
            Some((kind, msg)) => Err(Error::Foreign(kind, msg)),
        }
    }

    /// Consumes the slot after a foreign call whose returned value
    /// still has to be interpreted locally. A populated slot takes
    /// precedence: the foreign error is reported and the local
    /// interpretation — valid or not — is discarded, since the
    /// returned value cannot be trusted. Only on an empty slot does
    /// the local result count, with a local conversion failure lifted
    /// into the same error type.
    pub fn into_err_or_flatten<T>(self, local: Result<T, ConversionError>) -> (r: Result<
        T,
        Error,
    >)
        ensures
            r matches Ok(v) ==> flatten_view(self@, local) == Ok::<T, ErrorView>(v),
            r matches Err(e) ==> flatten_view(self@, local) == Err::<T, ErrorView>(e@),
    {
        match self.slot {
            Some((kind, msg)) => Err(Error::Foreign(kind, msg)),
            None => match local {
                Ok(v) => Ok(v),
                Err(c) => Err(Error::Conversion(c)),
            },
        }
    }
}

/// How a finished foreign call and the local interpretation of its
/// returned value merge into one result: a populated slot becomes the
/// foreign error, and only an empty slot lets the local result —
/// success or conversion failure — count.
pub open spec fn flatten_view<T>(
    slotv: Option<(ErrorKind, Seq<u8>)>,
    local: Result<T, ConversionError>,
) -> Result<T, ErrorView> {
    match slotv {
        Some((kind, msg)) => Err(ErrorView::Foreign(kind, msg)),
        None => match local {
            Ok(v) => Ok(v),
            Err(c) => Err(ErrorView::Conversion(c)),
        },
    }
}

/// Error-slot precedence: once the slot is populated, the merged
/// result is the foreign error and does not depend in any way on the
/// local interpretation of the (possibly garbage) returned value —
/// any two local results merge to the same foreign error.
pub proof fn lemma_error_slot_precedence<T>(
    slotv: Option<(ErrorKind, Seq<u8>)>,
    local_a: Result<T, ConversionError>,
    local_b: Result<T, ConversionError>,
)
    requires
        slotv is Some,
    ensures
        flatten_view(slotv, local_a) == flatten_view(slotv, local_b),
        flatten_view(slotv, local_a) matches Err(e) && e == ErrorView::Foreign(
            slotv->Some_0.0,
            slotv->Some_0.1,
        ),
{
}

} // verus!
