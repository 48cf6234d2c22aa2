//! The tagged dynamic value exchanged with the foreign side: a union
//! over absence, booleans, integers, floats, byte strings, arrays,
//! ordered mappings, and the small-integer handles the host uses for
//! its entities. A value owns whatever heap storage it carries; the
//! float is kept as its raw bit pattern, which is exactly what crosses
//! the boundary.

use vstd::prelude::*;

use crate::array::Array;
use crate::dictionary::Dictionary;
use crate::error::ConversionError;
use crate::nvim_string::{bytes_eq, NvimString};
use vstd::string::StringSliceAdditionalSpecFns;
use vstd::string::StrSliceExecFns;

verus! {

/// The tag of a dynamic value, used to report shape mismatches.
#[derive(Clone, Copy, Debug, PartialEq, Eq, Structural)]
pub enum ObjectKind {
    Nil,
    Boolean,
    Integer,
    Float,
    Str,
    Array,
    Dictionary,
    LuaRef,
    BufHandle,
    WinHandle,
    TabHandle,
}

/// Mathematical image of a dynamic value: strings become byte
/// sequences, containers become sequences of images.
pub enum ObjectView {
    Nil,
    Boolean(bool),
    Integer(i64),
    Float(u64),
    Str(Seq<u8>),
    Array(Seq<ObjectView>),
    Dictionary(Seq<(ObjectView, ObjectView)>),
    LuaRef(i32),
    BufHandle(i32),
    WinHandle(i32),
    TabHandle(i32),
}

/// A dynamic, tagged value in the exact shape the foreign side deals
/// in. The float variant carries the raw bit pattern of the
/// double-precision value, so no floating-point operation ever happens
/// on this side of the boundary.
#[derive(Debug)]
pub enum Object {
    Nil,
    Boolean(bool),
    Integer(i64),
    Float(u64),
    Str(NvimString),
    Array(Array),
    Dictionary(Dictionary),
    LuaRef(i32),
    BufHandle(i32),
    WinHandle(i32),
    TabHandle(i32),
}

/// The image of a dynamic value.
pub open spec fn obj_view(o: Object) -> ObjectView
    decreases o,
{
    match o {
        Object::Nil => ObjectView::Nil,
        Object::Boolean(b) => ObjectView::Boolean(b),
        Object::Integer(i) => ObjectView::Integer(i),
        Object::Float(bits) => ObjectView::Float(bits),
        Object::Str(s) => ObjectView::Str(s@),
        Object::Array(a) => ObjectView::Array(arr_view(a.items@)),
        Object::Dictionary(d) => ObjectView::Dictionary(dict_view(d.items@)),
        Object::LuaRef(r) => ObjectView::LuaRef(r),
        Object::BufHandle(h) => ObjectView::BufHandle(h),
        Object::WinHandle(h) => ObjectView::WinHandle(h),
        Object::TabHandle(h) => ObjectView::TabHandle(h),
    }
}

/// The images of an array's elements, in order.
pub open spec fn arr_view(s: Seq<Object>) -> Seq<ObjectView>
    decreases s,
{
    if s.len() == 0 {
        Seq::empty()
    } else {
        arr_view(s.drop_last()).push(obj_view(s.last()))
    }
}

/// The images of a mapping's entries, in order.
pub open spec fn dict_view(s: Seq<(Object, Object)>) -> Seq<(ObjectView, ObjectView)>
    decreases s,
{
    if s.len() == 0 {
        Seq::empty()
    } else {
        dict_view(s.drop_last()).push(
            (obj_view(s.last().0), obj_view(s.last().1)),
        )
    }
}

impl View for Object {
    type V = ObjectView;

    open spec fn view(&self) -> ObjectView {
        obj_view(*self)
    }
}

/// `arr_view` is the element-wise image: same length, image at every
/// index.
pub proof fn lemma_arr_view(s: Seq<Object>)
    ensures
        arr_view(s).len() == s.len(),
        forall|i: int| 0 <= i < s.len() ==> arr_view(s)[i] == s[i]@,
    decreases s.len(),
{
    if s.len() > 0 {
        lemma_arr_view(s.drop_last());
    }
}

/// `dict_view` is the entry-wise image: same length, images of the key
/// and the value at every index.
pub proof fn lemma_dict_view(s: Seq<(Object, Object)>)
    ensures
        dict_view(s).len() == s.len(),
        forall|i: int| 0 <= i < s.len() ==> dict_view(s)[i] == (s[i].0@, s[i].1@),
    decreases s.len(),
{
    if s.len() > 0 {
        lemma_dict_view(s.drop_last());
    }
}

/// `arr_view` of one more element is the image so far plus that
/// element's image.
pub proof fn lemma_arr_view_push(s: Seq<Object>, o: Object)
    ensures
        arr_view(s.push(o)) == arr_view(s).push(o@),
{
    assert(s.push(o).drop_last() =~= s);
    assert(s.push(o).last() == o);
    assert(arr_view(s.push(o)) == arr_view(s.push(o).drop_last()).push(obj_view(s.push(o).last())));
}

/// `dict_view` of one more entry is the image so far plus that entry's
/// image.
pub proof fn lemma_dict_view_push(s: Seq<(Object, Object)>, e: (Object, Object))
    ensures
        dict_view(s.push(e)) == dict_view(s).push((e.0@, e.1@)),
{
    assert(s.push(e).drop_last() =~= s);
    assert(s.push(e).last() == e);
    assert(dict_view(s.push(e)) == dict_view(s.push(e).drop_last()).push(
        (obj_view(s.push(e).last().0), obj_view(s.push(e).last().1)),
    ));
}

/// The tag of an image.
pub open spec fn kind_of(v: ObjectView) -> ObjectKind {
    match v {
        ObjectView::Nil => ObjectKind::Nil,
        ObjectView::Boolean(_) => ObjectKind::Boolean,
        ObjectView::Integer(_) => ObjectKind::Integer,
        ObjectView::Float(_) => ObjectKind::Float,
        ObjectView::Str(_) => ObjectKind::Str,
        ObjectView::Array(_) => ObjectKind::Array,
        ObjectView::Dictionary(_) => ObjectKind::Dictionary,
        ObjectView::LuaRef(_) => ObjectKind::LuaRef,
        ObjectView::BufHandle(_) => ObjectKind::BufHandle,
        ObjectView::WinHandle(_) => ObjectKind::WinHandle,
        ObjectView::TabHandle(_) => ObjectKind::TabHandle,
    }
}

impl Object {
    /// The representation of "no value".
    pub fn nil() -> (r: Object)
        ensures
            r@ == ObjectView::Nil,
    {
        Object::Nil
    }

    pub fn kind(&self) -> (r: ObjectKind)
        ensures
            r == kind_of(self@),
    {
        match self {
            Object::Nil => ObjectKind::Nil,
            Object::Boolean(_) => ObjectKind::Boolean,
            Object::Integer(_) => ObjectKind::Integer,
            Object::Float(_) => ObjectKind::Float,
            Object::Str(_) => ObjectKind::Str,
            Object::Array(_) => ObjectKind::Array,
            Object::Dictionary(_) => ObjectKind::Dictionary,
            Object::LuaRef(_) => ObjectKind::LuaRef,
            Object::BufHandle(_) => ObjectKind::BufHandle,
            Object::WinHandle(_) => ObjectKind::WinHandle,
            Object::TabHandle(_) => ObjectKind::TabHandle,
        }
    }

    /// Whether the value is anything but absence.
    pub fn is_some(&self) -> (r: bool)
        ensures
            r == !(self@ is Nil),
    {
        match self {
            Object::Nil => false,
            _ => true,
        }
    }

    pub fn is_nil(&self) -> (r: bool)
        ensures
            r == (self@ is Nil),
    {
        match self {
            Object::Nil => true,
            _ => false,
        }
    }

    pub fn from_bool(b: bool) -> (r: Object)
        ensures
            r@ == ObjectView::Boolean(b),
    {
        Object::Boolean(b)
    }

    pub fn from_integer(i: i64) -> (r: Object)
        ensures
            r@ == ObjectView::Integer(i),
    {
        Object::Integer(i)
    }

    /// Wraps the raw bit pattern of a double-precision float.
    pub fn from_float_bits(bits: u64) -> (r: Object)
        ensures
            r@ == ObjectView::Float(bits),
    {
        Object::Float(bits)
    }

    /// Takes ownership of the string's backing storage; nothing is
    /// copied.
    pub fn from_string(s: NvimString) -> (r: Object)
        ensures
            r@ == ObjectView::Str(s@),
    {
        Object::Str(s)
    }

    /// Converts borrowed text, copying its bytes into an owned string.
    pub fn from_str(s: &str) -> (r: Object)
        ensures
            r@ == ObjectView::Str(s.spec_bytes()),
    {
        Object::Str(NvimString::from_bytes(s.as_bytes_vec()))
    }

    /// Takes ownership of the array's backing storage; nothing is
    /// copied.
    pub fn from_array(a: Array) -> (r: Object)
        ensures
            r@ == ObjectView::Array(arr_view(a@)),
    {
        Object::Array(a)
    }

    /// Takes ownership of the mapping's backing storage; nothing is
    /// copied.
    pub fn from_dictionary(d: Dictionary) -> (r: Object)
        ensures
            r@ == ObjectView::Dictionary(dict_view(d@)),
    {
        Object::Dictionary(d)
    }

    pub fn from_luaref(r: i32) -> (o: Object)
        ensures
            o@ == ObjectView::LuaRef(r),
    {
        Object::LuaRef(r)
    }

    pub fn from_buf_handle(h: i32) -> (o: Object)
        ensures
            o@ == ObjectView::BufHandle(h),
    {
        Object::BufHandle(h)
    }

    pub fn from_win_handle(h: i32) -> (o: Object)
        ensures
            o@ == ObjectView::WinHandle(h),
    {
        Object::WinHandle(h)
    }

    pub fn from_tab_handle(h: i32) -> (o: Object)
        ensures
            o@ == ObjectView::TabHandle(h),
    {
        Object::TabHandle(h)
    }

    /// Absence converts to the native "no value"; everything else is
    /// the wrong shape.
    pub fn into_unit(self) -> (r: Result<(), ConversionError>)
        ensures
            r == into_unit_spec(self@),
    {
        let k = self.kind();
        match self {
            Object::Nil => Ok(()),
            _ => Err(ConversionError::WrongType { expected: ObjectKind::Nil, found: k }),
        }
    }

    pub fn into_bool(self) -> (r: Result<bool, ConversionError>)
        ensures
            r == into_bool_spec(self@),
    {
        let k = self.kind();
        match self {
            Object::Boolean(b) => Ok(b),
            _ => Err(ConversionError::WrongType { expected: ObjectKind::Boolean, found: k }),
        }
    }

    pub fn into_integer(self) -> (r: Result<i64, ConversionError>)
        ensures
            r == into_integer_spec(self@),
    {
        let k = self.kind();
        match self {
            Object::Integer(i) => Ok(i),
            _ => Err(ConversionError::WrongType { expected: ObjectKind::Integer, found: k }),
        }
    }

    pub fn into_float_bits(self) -> (r: Result<u64, ConversionError>)
        ensures
            r == into_float_bits_spec(self@),
    {
        let k = self.kind();
        match self {
            Object::Float(bits) => Ok(bits),
            _ => Err(ConversionError::WrongType { expected: ObjectKind::Float, found: k }),
        }
    }

    pub fn into_string(self) -> (r: Result<NvimString, ConversionError>)
        ensures
            r matches Ok(s) ==> into_string_spec(self@) == Ok::<Seq<u8>, ConversionError>(s@),
            r matches Err(c) ==> into_string_spec(self@) == Err::<Seq<u8>, ConversionError>(c),
    {
        let k = self.kind();
        match self {
            Object::Str(s) => Ok(s),
            _ => Err(ConversionError::WrongType { expected: ObjectKind::Str, found: k }),
        }
    }

    pub fn into_array(self) -> (r: Result<Array, ConversionError>)
        ensures
            r matches Ok(a) ==> into_array_spec(self@) == Ok::<Seq<ObjectView>, ConversionError>(
                arr_view(a@),
            ),
            r matches Err(c) ==> into_array_spec(self@) == Err::<Seq<ObjectView>, ConversionError>(
                c,
            ),
    {
        let k = self.kind();
        match self {
            Object::Array(a) => Ok(a),
            _ => Err(ConversionError::WrongType { expected: ObjectKind::Array, found: k }),
        }
    }

    pub fn into_dictionary(self) -> (r: Result<Dictionary, ConversionError>)
        ensures
            r matches Ok(d) ==> into_dictionary_spec(self@) == Ok::<
                Seq<(ObjectView, ObjectView)>,
                ConversionError,
            >(dict_view(d@)),
            r matches Err(c) ==> into_dictionary_spec(self@) == Err::<
                Seq<(ObjectView, ObjectView)>,
                ConversionError,
            >(c),
    {
        let k = self.kind();
        match self {
            Object::Dictionary(d) => Ok(d),
            _ => Err(ConversionError::WrongType { expected: ObjectKind::Dictionary, found: k }),
        }
    }

    pub fn into_luaref(self) -> (r: Result<i32, ConversionError>)
        ensures
            r == into_luaref_spec(self@),
    {
        let k = self.kind();
        match self {
            Object::LuaRef(x) => Ok(x),
            _ => Err(ConversionError::WrongType { expected: ObjectKind::LuaRef, found: k }),
        }
    }

    pub fn into_win_handle(self) -> (r: Result<i32, ConversionError>)
        ensures
            r == into_win_handle_spec(self@),
    {
        let k = self.kind();
        match self {
            Object::WinHandle(x) => Ok(x),
            _ => Err(ConversionError::WrongType { expected: ObjectKind::WinHandle, found: k }),
        }
    }

    pub fn into_buf_handle(self) -> (r: Result<i32, ConversionError>)
        ensures
            r == into_buf_handle_spec(self@),
    {
        let k = self.kind();
        match self {
            Object::BufHandle(x) => Ok(x),
            _ => Err(ConversionError::WrongType { expected: ObjectKind::BufHandle, found: k }),
        }
    }

    pub fn into_tab_handle(self) -> (r: Result<i32, ConversionError>)
        ensures
            r == into_tab_handle_spec(self@),
    {
        let k = self.kind();
        match self {
            Object::TabHandle(x) => Ok(x),
            _ => Err(ConversionError::WrongType { expected: ObjectKind::TabHandle, found: k }),
        }
    }
}

pub open spec fn into_unit_spec(v: ObjectView) -> Result<(), ConversionError> {
    match v {
        ObjectView::Nil => Ok(()),
        _ => Err(ConversionError::WrongType { expected: ObjectKind::Nil, found: kind_of(v) }),
    }
}

pub open spec fn into_bool_spec(v: ObjectView) -> Result<bool, ConversionError> {
    match v {
        ObjectView::Boolean(b) => Ok(b),
        _ => Err(ConversionError::WrongType { expected: ObjectKind::Boolean, found: kind_of(v) }),
    }
}

pub open spec fn into_integer_spec(v: ObjectView) -> Result<i64, ConversionError> {
    match v {
        ObjectView::Integer(i) => Ok(i),
        _ => Err(ConversionError::WrongType { expected: ObjectKind::Integer, found: kind_of(v) }),
    }
}

pub open spec fn into_float_bits_spec(v: ObjectView) -> Result<u64, ConversionError> {
    match v {
        ObjectView::Float(bits) => Ok(bits),
        _ => Err(ConversionError::WrongType { expected: ObjectKind::Float, found: kind_of(v) }),
    }
}

pub open spec fn into_string_spec(v: ObjectView) -> Result<Seq<u8>, ConversionError> {
    match v {
        ObjectView::Str(bs) => Ok(bs),
        _ => Err(ConversionError::WrongType { expected: ObjectKind::Str, found: kind_of(v) }),
    }
}

pub open spec fn into_array_spec(v: ObjectView) -> Result<Seq<ObjectView>, ConversionError> {
    match v {
        ObjectView::Array(es) => Ok(es),
        _ => Err(ConversionError::WrongType { expected: ObjectKind::Array, found: kind_of(v) }),
    }
}

pub open spec fn into_dictionary_spec(v: ObjectView) -> Result<
    Seq<(ObjectView, ObjectView)>,
    ConversionError,
> {
    match v {
        ObjectView::Dictionary(es) => Ok(es),
        _ => Err(
            ConversionError::WrongType { expected: ObjectKind::Dictionary, found: kind_of(v) },
        ),
    }
}

pub open spec fn into_luaref_spec(v: ObjectView) -> Result<i32, ConversionError> {
    match v {
        ObjectView::LuaRef(r) => Ok(r),
        _ => Err(ConversionError::WrongType { expected: ObjectKind::LuaRef, found: kind_of(v) }),
    }
}

pub open spec fn into_win_handle_spec(v: ObjectView) -> Result<i32, ConversionError> {
    match v {
        ObjectView::WinHandle(h) => Ok(h),
        _ => Err(
            ConversionError::WrongType { expected: ObjectKind::WinHandle, found: kind_of(v) },
        ),
    }
}

pub open spec fn into_buf_handle_spec(v: ObjectView) -> Result<i32, ConversionError> {
    match v {
        ObjectView::BufHandle(h) => Ok(h),
        _ => Err(
            ConversionError::WrongType { expected: ObjectKind::BufHandle, found: kind_of(v) },
        ),
    }
}

pub open spec fn into_tab_handle_spec(v: ObjectView) -> Result<i32, ConversionError> {
    match v {
        ObjectView::TabHandle(h) => Ok(h),
        _ => Err(
            ConversionError::WrongType { expected: ObjectKind::TabHandle, found: kind_of(v) },
        ),
    }
}

/// Round trip: for every supported shape, converting a native value in
/// and asking for the same shape back succeeds and returns the value
/// unchanged. Each constructor's contract gives the image of what it
/// built; this law says the matching extraction of that image is
/// exactly the original.
pub proof fn lemma_round_trip(v: ObjectView)
    ensures
        v is Nil ==> into_unit_spec(v) == Ok::<(), ConversionError>(()),
        v matches ObjectView::Boolean(b) ==> into_bool_spec(v) == Ok::<bool, ConversionError>(b),
        v matches ObjectView::Integer(i) ==> into_integer_spec(v) == Ok::<i64, ConversionError>(i),
        v matches ObjectView::Float(bits) ==> into_float_bits_spec(v) == Ok::<
            u64,
            ConversionError,
        >(bits),
        v matches ObjectView::Str(bs) ==> into_string_spec(v) == Ok::<Seq<u8>, ConversionError>(
            bs,
        ),
        v matches ObjectView::Array(es) ==> into_array_spec(v) == Ok::<
            Seq<ObjectView>,
            ConversionError,
        >(es),
        v matches ObjectView::Dictionary(es) ==> into_dictionary_spec(v) == Ok::<
            Seq<(ObjectView, ObjectView)>,
            ConversionError,
        >(es),
        v matches ObjectView::LuaRef(r) ==> into_luaref_spec(v) == Ok::<i32, ConversionError>(r),
        v matches ObjectView::BufHandle(h) ==> into_buf_handle_spec(v) == Ok::<
            i32,
            ConversionError,
        >(h),
        v matches ObjectView::WinHandle(h) ==> into_win_handle_spec(v) == Ok::<
            i32,
            ConversionError,
        >(h),
        v matches ObjectView::TabHandle(h) ==> into_tab_handle_spec(v) == Ok::<
            i32,
            ConversionError,
        >(h),
{
}

/// A conversion asked for the wrong shape fails, naming the expected
/// and the found tag; it never invents a value.
pub proof fn lemma_wrong_type(v: ObjectView)
    ensures
        !(v is Boolean) ==> into_bool_spec(v) == Err::<bool, ConversionError>(
            ConversionError::WrongType { expected: ObjectKind::Boolean, found: kind_of(v) },
        ),
        !(v is Integer) ==> into_integer_spec(v) == Err::<i64, ConversionError>(
            ConversionError::WrongType { expected: ObjectKind::Integer, found: kind_of(v) },
        ),
        !(v is Str) ==> into_string_spec(v) == Err::<Seq<u8>, ConversionError>(
            ConversionError::WrongType { expected: ObjectKind::Str, found: kind_of(v) },
        ),
        !(v is Array) ==> into_array_spec(v) == Err::<Seq<ObjectView>, ConversionError>(
            ConversionError::WrongType { expected: ObjectKind::Array, found: kind_of(v) },
        ),
{
}

impl Object {
    /// Deep structural comparison of two dynamic values.
    pub fn obj_eq(&self, other: &Object) -> (r: bool)
        ensures
            r == (self@ == other@),
        decreases *self,
    {
        match (self, other) {
            (Object::Nil, Object::Nil) => true,
            (Object::Boolean(a), Object::Boolean(b)) => a == b,
            (Object::Integer(a), Object::Integer(b)) => a == b,
            (Object::Float(a), Object::Float(b)) => a == b,
            (Object::Str(a), Object::Str(b)) => bytes_eq(a.as_bytes(), b.as_bytes()),
            (Object::Array(a), Object::Array(b)) => {
                proof {
                    lemma_arr_view(a.items@);
                    lemma_arr_view(b.items@);
                }
                if a.items.len() != b.items.len() {
                    return false;
                }
                let n = a.items.len();
                let mut i: usize = 0;
                while i < n
                    invariant
                        n == a.items@.len(),
                        n == b.items@.len(),
                        i <= n,
                        self == Object::Array(*a),
                        other == Object::Array(*b),
                        forall|j: int| 0 <= j < i ==> a.items@[j]@ == b.items@[j]@,
                    decreases n - i,
                {
                    proof {
                        assert(decreases_to!(*self => (*self)->Array_0));
                        assert(decreases_to!(*a => a.items));
                        assert(decreases_to!(a.items => a.items@));
                        assert(decreases_to!(a.items@ => a.items@[i as int]));
                        assert(decreases_to!(*self => a.items@[i as int]));
                    }
                    if !a.items[i].obj_eq(&b.items[i]) {
                        proof {
                            lemma_arr_view(a.items@);
                            lemma_arr_view(b.items@);
                            assert(arr_view(a.items@)[i as int] != arr_view(b.items@)[i as int]);
                        }
                        return false;
                    }
                    i += 1;
                }
                proof {
                    lemma_arr_view(a.items@);
                    lemma_arr_view(b.items@);
                    assert(arr_view(a.items@) =~= arr_view(b.items@));
                }
                true
            },
            (Object::Dictionary(a), Object::Dictionary(b)) => {
                proof {
                    lemma_dict_view(a.items@);
                    lemma_dict_view(b.items@);
                }
                if a.items.len() != b.items.len() {
                    return false;
                }
                let n = a.items.len();
                let mut i: usize = 0;
                while i < n
                    invariant
                        n == a.items@.len(),
                        n == b.items@.len(),
                        i <= n,
                        self == Object::Dictionary(*a),
                        other == Object::Dictionary(*b),
                        forall|j: int|
                            0 <= j < i ==> a.items@[j].0@ == b.items@[j].0@ && a.items@[j].1@
                                == b.items@[j].1@,
                    decreases n - i,
                {
                    proof {
                        assert(decreases_to!(*self => (*self)->Dictionary_0));
                        assert(decreases_to!(*a => a.items));
                        assert(decreases_to!(a.items => a.items@));
                        assert(decreases_to!(a.items@ => a.items@[i as int]));
                        assert(decreases_to!(a.items@[i as int] => a.items@[i as int].0));
                        assert(decreases_to!(a.items@[i as int] => a.items@[i as int].1));
                        assert(decreases_to!(*self => a.items@[i as int].0));
                        assert(decreases_to!(*self => a.items@[i as int].1));
                    }
                    let keys_eq = a.items[i].0.obj_eq(&b.items[i].0);
                    let values_eq = a.items[i].1.obj_eq(&b.items[i].1);
                    if !keys_eq || !values_eq {
                        proof {
                            lemma_dict_view(a.items@);
                            lemma_dict_view(b.items@);
                            assert(dict_view(a.items@)[i as int] != dict_view(b.items@)[i as int]);
                        }
                        return false;
                    }
                    i += 1;
                }
                proof {
                    lemma_dict_view(a.items@);
                    lemma_dict_view(b.items@);
                    assert(dict_view(a.items@) =~= dict_view(b.items@));
                }
                true
            },
            (Object::LuaRef(a), Object::LuaRef(b)) => a == b,
            (Object::BufHandle(a), Object::BufHandle(b)) => a == b,
            (Object::WinHandle(a), Object::WinHandle(b)) => a == b,
            (Object::TabHandle(a), Object::TabHandle(b)) => a == b,
            _ => false,
        }
    }
}

impl PartialEq for Object {
    fn eq(&self, other: &Object) -> (r: bool) {
        self.obj_eq(other)
    }
}

impl vstd::std_specs::cmp::PartialEqSpecImpl for Object {
    open spec fn obeys_eq_spec() -> bool {
        true
    }

    open spec fn eq_spec(&self, other: &Object) -> bool {
        self@ == other@
    }
}

} // verus!
