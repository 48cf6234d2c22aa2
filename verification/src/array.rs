//! Arrays of dynamic values: the foreign-ABI container instantiated at
//! [`Object`], with the construction rule the host applies — elements
//! that convert to absence are dropped before they are stored.

use vstd::prelude::*;

use crate::collection::{Collection, CollectionIterator};
use crate::non_owning::NonOwning;
use crate::nvim_string::NvimString;
use crate::error::ConversionError;
use crate::object::{arr_view, lemma_arr_view, lemma_arr_view_push, Object, ObjectKind, ObjectView};
use vstd::string::StringSliceAdditionalSpecFns;
use vstd::string::StrSliceExecFns;

verus! {

/// A contiguous, foreign-ABI-shaped array of dynamic values.
pub type Array = Collection<Object>;

/// Owning iterator over an [`Array`].
pub type ArrayIterator = CollectionIterator<Object>;

/// A native value that converts into a dynamic one; the conversion is
/// pinned down by the image it promises.
pub trait IntoObject: Sized {
    /// The image of the dynamic value this native value becomes.
    spec fn object_view(self) -> ObjectView;

    /// Converts the native value, transferring ownership of whatever
    /// heap storage it carries into the dynamic value.
    fn into_object(self) -> (r: Object)
        ensures
            r@ == self.object_view(),
    ;
}

impl IntoObject for Object {
    open spec fn object_view(self) -> ObjectView {
        self@
    }

    fn into_object(self) -> (r: Object) {
        self
    }
}

impl IntoObject for bool {
    open spec fn object_view(self) -> ObjectView {
        ObjectView::Boolean(self)
    }

    fn into_object(self) -> (r: Object) {
        Object::Boolean(self)
    }
}

impl IntoObject for i64 {
    open spec fn object_view(self) -> ObjectView {
        ObjectView::Integer(self)
    }

    fn into_object(self) -> (r: Object) {
        Object::Integer(self)
    }
}

impl IntoObject for NvimString {
    open spec fn object_view(self) -> ObjectView {
        ObjectView::Str(self@)
    }

    fn into_object(self) -> (r: Object) {
        Object::Str(self)
    }
}

impl<'a> IntoObject for &'a str {
    open spec fn object_view(self) -> ObjectView {
        ObjectView::Str(self.spec_bytes())
    }

    fn into_object(self) -> (r: Object) {
        Object::Str(NvimString::from_bytes(self.as_bytes_vec()))
    }
}

/// Absence stays absence; a present value converts as it would alone.
impl<T: IntoObject> IntoObject for Option<T> {
    open spec fn object_view(self) -> ObjectView {
        match self {
            None => ObjectView::Nil,
            Some(v) => v.object_view(),
        }
    }

    fn into_object(self) -> (r: Object) {
        match self {
            None => Object::Nil,
            Some(v) => v.into_object(),
        }
    }
}

/// Keeps only the images that are not absence.
pub open spec fn non_nil(s: Seq<ObjectView>) -> Seq<ObjectView> {
    s.filter(|v: ObjectView| !(v is Nil))
}

impl Array {
    /// Builds an array from native values, converting each and
    /// dropping the ones that convert to absence — the host's array
    /// construction semantics.
    pub fn from_iter<T: IntoObject>(values: Vec<T>) -> (r: Array)
        ensures
            arr_view(r@) == non_nil(values@.map_values(|t: T| t.object_view())),
    {
        let ghost source: Seq<T> = values@;
        let mut values = values;
        let mut out: Array = Collection::new();
        let ghost mut done: int = 0;
        proof {
            assert(values@ =~= source.skip(0));
            assert(source.take(0).map_values(|t: T| t.object_view()) =~= Seq::<
                ObjectView,
            >::empty());
            reveal(Seq::filter);
        }
        while values.len() != 0
            invariant
                0 <= done <= source.len(),
                values@ == source.skip(done),
                arr_view(out@) == non_nil(
                    source.take(done).map_values(|t: T| t.object_view()),
                ),
            decreases values@.len(),
        {
            let ghost taken_before: Seq<ObjectView> = source.take(done).map_values(
                |t: T| t.object_view(),
            );
            let value = values.remove(0);
            proof {
                assert(value == source[done]);
                assert(values@ =~= source.skip(done + 1));
            }
            let obj = value.into_object();
            let ghost out_before: Seq<Object> = out@;
            if obj.is_some() {
                out.push(obj);
                proof {
                    lemma_arr_view_push(out_before, obj);
                }
            }
            proof {
                let taken_after = source.take(done + 1).map_values(|t: T| t.object_view());
                assert(source.take(done + 1) =~= source.take(done).push(source[done]));
                assert(taken_after =~= taken_before.push(value.object_view()));
                lemma_non_nil_push(taken_before, value.object_view());
                done = done + 1;
            }
        }
        proof {
            assert(source.take(done) =~= source);
        }
        out
    }

    /// Make a non-owning version of this `Array`.
    pub fn non_owning<'a>(&'a self) -> (r: NonOwning<'a, Array>)
        ensures
            r@ == self@,
    {
        NonOwning::new(self)
    }

    /// Converts the array element-wise into native integers,
    /// propagating the first element that has the wrong shape.
    pub fn into_integers(self) -> (r: Result<Vec<i64>, ConversionError>)
        ensures
            r matches Ok(values) ==> integers_of(arr_view(self@)) == Ok::<
                Seq<i64>,
                ConversionError,
            >(values@),
            r matches Err(c) ==> integers_of(arr_view(self@)) == Err::<Seq<i64>, ConversionError>(
                c,
            ),
    {
        proof {
            assert(arr_view(self@).skip(0) =~= arr_view(self@));
        }
        integers_from(&self, 0)
    }
}

/// The image of converting an array's elements to integers front to
/// back: the first element of the wrong shape is the error.
pub open spec fn integers_of(s: Seq<ObjectView>) -> Result<Seq<i64>, ConversionError>
    decreases s.len(),
{
    if s.len() == 0 {
        Ok(Seq::empty())
    } else {
        match s[0] {
            ObjectView::Integer(i) => match integers_of(s.skip(1)) {
                Ok(rest) => Ok(seq![i] + rest),
                Err(c) => Err(c),
            },
            other => Err(
                ConversionError::WrongType {
                    expected: ObjectKind::Integer,
                    found: crate::object::kind_of(other),
                },
            ),
        }
    }
}

/// Converts the elements of `arr` from position `i` on.
fn integers_from(arr: &Array, i: usize) -> (r: Result<Vec<i64>, ConversionError>)
    requires
        i <= arr@.len(),
    ensures
        r matches Ok(values) ==> integers_of(arr_view(arr@).skip(i as int)) == Ok::<
            Seq<i64>,
            ConversionError,
        >(values@),
        r matches Err(c) ==> integers_of(arr_view(arr@).skip(i as int)) == Err::<
            Seq<i64>,
            ConversionError,
        >(c),
    decreases arr@.len() - i,
{
    proof {
        lemma_arr_view(arr@);
    }
    if i == arr.len() {
        proof {
            assert(arr_view(arr@).skip(i as int).len() == 0);
        }
        Ok(Vec::new())
    } else {
        let ghost tail = arr_view(arr@).skip(i as int);
        proof {
            assert(tail[0] == arr_view(arr@)[i as int]);
            assert(tail.skip(1) =~= arr_view(arr@).skip(i as int + 1));
        }
        let head: i64 = match arr.get(i) {
            Object::Integer(value) => *value,
            other => {
                return Err(
                    ConversionError::WrongType {
                        expected: ObjectKind::Integer,
                        found: other.kind(),
                    },
                );
            },
        };
        let mut rest = match integers_from(arr, i + 1) {
            Ok(values) => values,
            Err(c) => {
                return Err(c);
            },
        };
        let ghost rest_snapshot = rest@;
        rest.insert(0, head);
        proof {
            assert(rest@ =~= seq![head] + rest_snapshot);
        }
        Ok(rest)
    }
}

/// Filtering one more image keeps it exactly when it is not absence.
pub proof fn lemma_non_nil_push(s: Seq<ObjectView>, v: ObjectView)
    ensures
        !(v is Nil) ==> non_nil(s.push(v)) == non_nil(s).push(v),
        v is Nil ==> non_nil(s.push(v)) == non_nil(s),
{
    reveal(Seq::filter);
    assert(s.push(v).drop_last() =~= s);
    assert(s.push(v).last() == v);
}

/// Null filtering: what survives the filter is never absence, and
/// there is no more of it than there was input.
pub proof fn lemma_non_nil_shape(s: Seq<ObjectView>)
    ensures
        non_nil(s).len() <= s.len(),
        forall|i: int| 0 <= i < non_nil(s).len() ==> !(#[trigger] non_nil(s)[i] is Nil),
    decreases s.len(),
{
    reveal(Seq::filter);
    if s.len() > 0 {
        lemma_non_nil_shape(s.drop_last());
        lemma_non_nil_push(s.drop_last(), s.last());
        assert(s.drop_last().push(s.last()) =~= s);
    }
}

} // verus!
