//! Window, buffer and tabpage handles, and the window operations'
//! local halves. Each host API call runs outside this library; what
//! stands here is everything around it: marshalling the arguments the
//! call is made with, and interpreting the error slot and the raw
//! reply it leaves behind: the populated-slot-wins rule and the
//! shape checks every reply must pass.

use vstd::prelude::*;

use crate::array::Array;
use crate::collection::Collection;
use crate::error::{ConversionError, Error, ErrorSlot, ErrorView};
use crate::object::{Object, ObjectKind, ObjectView};
use crate::registry::ClosureRegistry;

verus! {

/// A handle to one of the host's windows.
#[derive(Clone, Copy, Debug, PartialEq, Eq, Hash, Structural)]
pub struct Window(pub i32);

/// A handle to one of the host's buffers.
#[derive(Clone, Copy, Debug, PartialEq, Eq, Hash, Structural)]
pub struct Buffer(pub i32);

/// A handle to one of the host's tabpages.
#[derive(Clone, Copy, Debug, PartialEq, Eq, Hash, Structural)]
pub struct TabPage(pub i32);

/// Interprets a dynamic value as a nonnegative index that fits the
/// platform word, the way cursor and position replies are read.
pub open spec fn usize_from_obj_spec(v: ObjectView) -> Result<usize, ConversionError> {
    match v {
        ObjectView::Integer(i) => if 0 <= i && i as int <= usize::MAX as int {
            Ok(i as usize)
        } else {
            Err(ConversionError::OutOfRange { found: i })
        },
        _ => Err(ConversionError::WrongType { expected: ObjectKind::Integer, found: crate::object::kind_of(v) }),
    }
}

/// Reads a dynamic value as a nonnegative platform-word index.
pub fn usize_from_obj(o: &Object) -> (r: Result<usize, ConversionError>)
    ensures
        r == usize_from_obj_spec(o@),
{
    let k = o.kind();
    match o {
        Object::Integer(i) => {
            let i = *i;
            if i >= 0 && (i as u64) <= (usize::MAX as u64) {
                Ok(i as usize)
            } else {
                Err(ConversionError::OutOfRange { found: i })
            }
        },
        _ => Err(ConversionError::WrongType { expected: ObjectKind::Integer, found: k }),
    }
}

/// The (1,0)-indexed cursor position marshalled the way the host call
/// takes it: a two-element array of integers.
pub fn cursor_position(line: usize, col: usize) -> (a: Array)
    requires
        line <= i64::MAX as usize,
        col <= i64::MAX as usize,
    ensures
        a@.len() == 2,
        a@[0]@ == ObjectView::Integer(line as i64),
        a@[1]@ == ObjectView::Integer(col as i64),
{
    let mut a: Array = Collection::new();
    a.push(Object::from_integer(line as i64));
    a.push(Object::from_integer(col as i64));
    a
}

impl Window {
    /// The window the host reports as current; the handle is what the
    /// host's current-window query returned.
    pub fn current(handle: i32) -> (w: Window)
        ensures
            w.0 == handle,
    {
        Window(handle)
    }

    /// The raw handle, as the host calls take it.
    pub fn handle(&self) -> (h: i32)
        ensures
            h == self.0,
    {
        self.0
    }

    /// Reads a window out of a dynamic value.
    pub fn from_obj(obj: Object) -> (r: Result<Window, ConversionError>)
        ensures
            obj@ matches ObjectView::WinHandle(h) ==> r == Ok::<Window, ConversionError>(
                Window(h),
            ),
            !(obj@ is WinHandle) ==> r == Err::<Window, ConversionError>(
                ConversionError::WrongType {
                    expected: ObjectKind::WinHandle,
                    found: crate::object::kind_of(obj@),
                },
            ),
    {
        match obj.into_win_handle() {
            Ok(h) => Ok(Window(h)),
            Err(c) => Err(c),
        }
    }

    /// The window as a dynamic value.
    pub fn to_object(&self) -> (r: Object)
        ensures
            r@ == ObjectView::WinHandle(self.0),
    {
        Object::from_win_handle(self.0)
    }

    /// Finishes the call that runs a registered function with this
    /// window as the temporary current window. `fun_ref` is the
    /// one-shot reference the function was registered under, and
    /// `err`/`reply` are what the host call left behind. On success
    /// the reference is removed from the registry and the reply is
    /// handed back; on a foreign error the reply is not interpreted
    /// and the registry is left as it was.
    pub fn call<T>(
        &self,
        registry: &mut ClosureRegistry<T>,
        fun_ref: i32,
        err: ErrorSlot,
        reply: Object,
    ) -> (r: Result<Object, Error>)
        ensures
            err@ matches Some((kind, msg)) ==> (r matches Err(e) && e@ == ErrorView::Foreign(
                kind,
                msg,
            ) && final(registry).entries@ == old(registry).entries@),
            err@ is None ==> (r matches Ok(o) && o == reply && (old(registry).resolves(
                fun_ref as int,
            ) ==> final(registry).entries@ == old(registry).entries@.update(fun_ref as int, None))
                && (!old(registry).resolves(fun_ref as int) ==> final(registry).entries@ == old(
                registry,
            ).entries@)),
    {
        if err.is_err() {
            err.into_err_or(reply)
        } else {
            let _ = registry.unregister(fun_ref);
            err.into_err_or(reply)
        }
    }

    /// Finishes a close request: the error slot the host call left
    /// behind becomes the result. `force` is the flag the request was
    /// made with.
    pub fn close(self, force: bool, err: ErrorSlot) -> (r: Result<(), Error>)
        ensures
            err@ is None ==> r == Ok::<(), Error>(()),
            err@ matches Some((kind, msg)) ==> (r matches Err(e) && e@ == ErrorView::Foreign(
                kind,
                msg,
            )),
    {
        err.into_err_or(())
    }

    /// Finishes a request to close the window and hide its buffer.
    pub fn hide_window(self, err: ErrorSlot) -> (r: Result<(), Error>)
        ensures
            err@ is None ==> r == Ok::<(), Error>(()),
            err@ matches Some((kind, msg)) ==> (r matches Err(e) && e@ == ErrorView::Foreign(
                kind,
                msg,
            )),
    {
        err.into_err_or(())
    }

    /// Finishes the removal of a window-scoped variable.
    pub fn del_var(&mut self, err: ErrorSlot) -> (r: Result<(), Error>)
        ensures
            *final(self) == *old(self),
            err@ is None ==> r == Ok::<(), Error>(()),
            err@ matches Some((kind, msg)) ==> (r matches Err(e) && e@ == ErrorView::Foreign(
                kind,
                msg,
            )),
    {
        err.into_err_or(())
    }

    /// Interprets the reply of the buffer query: the handle the host
    /// returned, unless the error slot was populated.
    pub fn get_buf(&self, err: ErrorSlot, handle: i32) -> (r: Result<Buffer, Error>)
        ensures
            err@ is None ==> r == Ok::<Buffer, Error>(Buffer(handle)),
            err@ matches Some((kind, msg)) ==> (r matches Err(e) && e@ == ErrorView::Foreign(
                kind,
                msg,
            )),
    {
        err.into_err_or(Buffer(handle))
    }

    /// Interprets the reply of the tabpage query.
    pub fn get_tabpage(&self, err: ErrorSlot, handle: i32) -> (r: Result<TabPage, Error>)
        ensures
            err@ is None ==> r == Ok::<TabPage, Error>(TabPage(handle)),
            err@ matches Some((kind, msg)) ==> (r matches Err(e) && e@ == ErrorView::Foreign(
                kind,
                msg,
            )),
    {
        err.into_err_or(TabPage(handle))
    }

    /// Interprets the reply of the cursor query: a two-element integer
    /// array becomes the (1,0)-indexed position; a populated error
    /// slot wins over the reply.
    pub fn get_cursor(&self, err: ErrorSlot, reply: Array) -> (r: Result<(usize, usize), Error>)
        requires
            err@ is None ==> reply@.len() >= 2,
        ensures
            err@ matches Some((kind, msg)) ==> (r matches Err(e) && e@ == ErrorView::Foreign(
                kind,
                msg,
            )),
            err@ is None ==> r == position_result(reply@[0]@, reply@[1]@),
    {
        match err.slot {
            Some((kind, msg)) => Err(Error::Foreign(kind, msg)),
            None => {
                let line = usize_from_obj(reply.get(0));
                let col = usize_from_obj(reply.get(1));
                match (line, col) {
                    (Ok(line), Ok(col)) => Ok((line, col)),
                    (Err(c), _) => Err(Error::Conversion(c)),
                    (_, Err(c)) => Err(Error::Conversion(c)),
                }
            },
        }
    }

    /// Interprets the reply of the position query, shaped exactly like
    /// the cursor reply.
    pub fn get_position(&self, err: ErrorSlot, reply: Array) -> (r: Result<(usize, usize), Error>)
        requires
            err@ is None ==> reply@.len() >= 2,
        ensures
            err@ matches Some((kind, msg)) ==> (r matches Err(e) && e@ == ErrorView::Foreign(
                kind,
                msg,
            )),
            err@ is None ==> r == position_result(reply@[0]@, reply@[1]@),
    {
        self.get_cursor(err, reply)
    }

    /// Interprets a height reply. The host only reports nonnegative
    /// row counts that fit; a reply outside that range is not a value
    /// this operation is defined on.
    pub fn get_height(&self, err: ErrorSlot, height: i64) -> (r: Result<u32, Error>)
        requires
            err@ is None ==> 0 <= height <= u32::MAX as i64,
        ensures
            err@ is None ==> r == Ok::<u32, Error>(height as u32),
            err@ matches Some((kind, msg)) ==> (r matches Err(e) && e@ == ErrorView::Foreign(
                kind,
                msg,
            )),
    {
        err.into_err_or(height as u32)
    }

    /// Interprets a window-number reply, shaped like a height reply.
    pub fn get_number(&self, err: ErrorSlot, nr: i64) -> (r: Result<u32, Error>)
        requires
            err@ is None ==> 0 <= nr <= u32::MAX as i64,
        ensures
            err@ is None ==> r == Ok::<u32, Error>(nr as u32),
            err@ matches Some((kind, msg)) ==> (r matches Err(e) && e@ == ErrorView::Foreign(
                kind,
                msg,
            )),
    {
        err.into_err_or(nr as u32)
    }

    /// Interprets a width reply, shaped like a height reply.
    pub fn get_width(&self, err: ErrorSlot, width: i64) -> (r: Result<u32, Error>)
        requires
            err@ is None ==> 0 <= width <= u32::MAX as i64,
        ensures
            err@ is None ==> r == Ok::<u32, Error>(width as u32),
            err@ matches Some((kind, msg)) ==> (r matches Err(e) && e@ == ErrorView::Foreign(
                kind,
                msg,
            )),
    {
        err.into_err_or(width as u32)
    }

    /// Interprets the reply of an option query: the dynamic value the
    /// host returned, unless the error slot was populated.
    pub fn get_option(&self, err: ErrorSlot, reply: Object) -> (r: Result<Object, Error>)
        ensures
            err@ is None ==> (r matches Ok(o) && o == reply),
            err@ matches Some((kind, msg)) ==> (r matches Err(e) && e@ == ErrorView::Foreign(
                kind,
                msg,
            )),
    {
        err.into_err_or(reply)
    }

    /// Interprets the reply of a window-scoped variable query.
    pub fn get_var(&self, err: ErrorSlot, reply: Object) -> (r: Result<Object, Error>)
        ensures
            err@ is None ==> (r matches Ok(o) && o == reply),
            err@ matches Some((kind, msg)) ==> (r matches Err(e) && e@ == ErrorView::Foreign(
                kind,
                msg,
            )),
    {
        err.into_err_or(reply)
    }

    /// Finishes setting the window's buffer.
    pub fn set_buf(&mut self, err: ErrorSlot) -> (r: Result<(), Error>)
        ensures
            *final(self) == *old(self),
            err@ is None ==> r == Ok::<(), Error>(()),
            err@ matches Some((kind, msg)) ==> (r matches Err(e) && e@ == ErrorView::Foreign(
                kind,
                msg,
            )),
    {
        err.into_err_or(())
    }

    /// Finishes setting the cursor; the position was marshalled with
    /// [`cursor_position`].
    pub fn set_cursor(&mut self, err: ErrorSlot) -> (r: Result<(), Error>)
        ensures
            *final(self) == *old(self),
            err@ is None ==> r == Ok::<(), Error>(()),
            err@ matches Some((kind, msg)) ==> (r matches Err(e) && e@ == ErrorView::Foreign(
                kind,
                msg,
            )),
    {
        err.into_err_or(())
    }

    /// Finishes setting the window height.
    pub fn set_height(&mut self, err: ErrorSlot) -> (r: Result<(), Error>)
        ensures
            *final(self) == *old(self),
            err@ is None ==> r == Ok::<(), Error>(()),
            err@ matches Some((kind, msg)) ==> (r matches Err(e) && e@ == ErrorView::Foreign(
                kind,
                msg,
            )),
    {
        err.into_err_or(())
    }

    /// Finishes setting the window width.
    pub fn set_width(&mut self, err: ErrorSlot) -> (r: Result<(), Error>)
        ensures
            *final(self) == *old(self),
            err@ is None ==> r == Ok::<(), Error>(()),
            err@ matches Some((kind, msg)) ==> (r matches Err(e) && e@ == ErrorView::Foreign(
                kind,
                msg,
            )),
    {
        err.into_err_or(())
    }

    /// Finishes setting a window option.
    pub fn set_option(&mut self, err: ErrorSlot) -> (r: Result<(), Error>)
        ensures
            *final(self) == *old(self),
            err@ is None ==> r == Ok::<(), Error>(()),
            err@ matches Some((kind, msg)) ==> (r matches Err(e) && e@ == ErrorView::Foreign(
                kind,
                msg,
            )),
    {
        err.into_err_or(())
    }

    /// Finishes setting a window-scoped variable.
    pub fn set_var(&mut self, err: ErrorSlot) -> (r: Result<(), Error>)
        ensures
            *final(self) == *old(self),
            err@ is None ==> r == Ok::<(), Error>(()),
            err@ matches Some((kind, msg)) ==> (r matches Err(e) && e@ == ErrorView::Foreign(
                kind,
                msg,
            )),
    {
        err.into_err_or(())
    }
}

/// How a cursor or position reply's two elements become the result:
/// both must be nonnegative integers that fit the platform word, and
/// the first failure is the one reported.
pub open spec fn position_result(first: ObjectView, second: ObjectView) -> Result<
    (usize, usize),
    Error,
> {
    match usize_from_obj_spec(first) {
        Err(c) => Err(Error::Conversion(c)),
        Ok(line) => match usize_from_obj_spec(second) {
            Err(c) => Err(Error::Conversion(c)),
            Ok(col) => Ok((line, col)),
        },
    }
}

} // verus!
