//! The typed result of the host's statusline evaluation, read out of
//! the dynamic value the host returns: a mapping with the rendered
//! characters, the display width, and — when highlight information was
//! requested — a list of highlight records.

use vstd::prelude::*;

use crate::array::Array;
use crate::dictionary::Dictionary;
use crate::error::ConversionError;
use crate::nvim_string::{bytes_eq, NvimString};
use crate::object::{
    arr_view, dict_view, kind_of, lemma_arr_view, lemma_dict_view, Object, ObjectKind, ObjectView,
};
use vstd::string::StringSliceAdditionalSpecFns;
use vstd::string::StrSliceExecFns;

verus! {

/// Highlight information for one statusline segment.
#[derive(Debug)]
pub struct StatuslineHighlightInfos {
    /// Byte index, in the rendered statusline, where the highlight
    /// starts.
    pub start: i64,
    /// Name of the highlight group in effect at `start`.
    pub group: NvimString,
}

/// Statusline information returned by the host's statusline
/// evaluation.
#[derive(Debug)]
pub struct StatuslineInfos {
    /// Highlight records, populated when highlight information was
    /// asked for; empty when the reply carries none.
    pub highlights: Vec<StatuslineHighlightInfos>,
    /// Characters displayed in the statusline.
    pub str: NvimString,
    /// Display width of the statusline.
    pub width: u32,
}

/// First value stored under `key` in an ordered mapping's image, front
/// to back; `None` when no entry has that key.
pub open spec fn lookup(entries: Seq<(ObjectView, ObjectView)>, key: Seq<u8>) -> Option<ObjectView>
    decreases entries.len(),
{
    if entries.len() == 0 {
        None
    } else if entries[0].0 == ObjectView::Str(key) {
        Some(entries[0].1)
    } else {
        lookup(entries.skip(1), key)
    }
}

/// Finds the first value stored under a byte-string key.
pub fn dict_get<'a>(dict: &'a Dictionary, key: &str) -> (r: Option<&'a Object>)
    ensures
        match r {
            Some(o) => lookup(dict_view(dict@), key.spec_bytes()) == Some(o@),
            None => lookup(dict_view(dict@), key.spec_bytes()) is None,
        },
{
    proof {
        lemma_dict_view(dict@);
        assert(dict_view(dict@).skip(0) =~= dict_view(dict@));
    }
    let n = dict.len();
    let mut i: usize = 0;
    while i < n
        invariant
            n == dict@.len(),
            i <= n,
            dict_view(dict@).len() == n,
            forall|j: int| 0 <= j < n ==> dict_view(dict@)[j] == (dict@[j].0@, dict@[j].1@),
            lookup(dict_view(dict@), key.spec_bytes()) == lookup(
                dict_view(dict@).skip(i as int),
                key.spec_bytes(),
            ),
        decreases n - i,
    {
        let entry = dict.get(i);
        let matches_key = match &entry.0 {
            Object::Str(s) => bytes_eq(s.as_bytes(), &key.as_bytes_vec()),
            _ => false,
        };
        proof {
            let rest = dict_view(dict@).skip(i as int);
            assert(rest.len() > 0);
            assert(rest[0] == dict_view(dict@)[i as int]);
            assert(rest.skip(1) =~= dict_view(dict@).skip(i as int + 1));
        }
        if matches_key {
            return Some(&entry.1);
        }
        proof {
            assert(!(dict_view(dict@).skip(i as int)[0].0 == ObjectView::Str(key.spec_bytes())));
        }
        i += 1;
    }
    proof {
        assert(dict_view(dict@).skip(n as int).len() == 0);
    }
    None
}

/// The image of reading one highlight record: a mapping whose `start`
/// is an integer and whose `group` is a string; anything else is the
/// wrong shape, reported against the part that failed first.
pub open spec fn highlight_from_obj_spec(v: ObjectView) -> Result<
    (i64, Seq<u8>),
    ConversionError,
> {
    match v {
        ObjectView::Dictionary(es) => match lookup(es, "start".spec_bytes()) {
            Some(ObjectView::Integer(start)) => match lookup(es, "group".spec_bytes()) {
                Some(ObjectView::Str(group)) => Ok((start, group)),
                Some(other) => Err(
                    ConversionError::WrongType {
                        expected: ObjectKind::Str,
                        found: kind_of(other),
                    },
                ),
                None => Err(
                    ConversionError::WrongType {
                        expected: ObjectKind::Str,
                        found: ObjectKind::Nil,
                    },
                ),
            },
            Some(other) => Err(
                ConversionError::WrongType { expected: ObjectKind::Integer, found: kind_of(other) },
            ),
            None => Err(
                ConversionError::WrongType { expected: ObjectKind::Integer, found: ObjectKind::Nil },
            ),
        },
        _ => Err(ConversionError::WrongType { expected: ObjectKind::Dictionary, found: kind_of(v) }),
    }
}

impl StatuslineHighlightInfos {
    /// Reads one highlight record out of a dynamic value.
    pub fn from_obj(obj: &Object) -> (r: Result<StatuslineHighlightInfos, ConversionError>)
        ensures
            r matches Ok(h) ==> highlight_from_obj_spec(obj@) == Ok::<
                (i64, Seq<u8>),
                ConversionError,
            >((h.start, h.group@)),
            r matches Err(c) ==> highlight_from_obj_spec(obj@) == Err::<
                (i64, Seq<u8>),
                ConversionError,
            >(c),
    {
        let k = obj.kind();
        let dict = match obj {
            Object::Dictionary(d) => d,
            _ => {
                return Err(
                    ConversionError::WrongType { expected: ObjectKind::Dictionary, found: k },
                );
            },
        };
        let start: i64 = match dict_get(dict, "start") {
            Some(Object::Integer(start)) => *start,
            Some(other) => {
                return Err(
                    ConversionError::WrongType {
                        expected: ObjectKind::Integer,
                        found: other.kind(),
                    },
                );
            },
            None => {
                return Err(
                    ConversionError::WrongType {
                        expected: ObjectKind::Integer,
                        found: ObjectKind::Nil,
                    },
                );
            },
        };
        let group: NvimString = match dict_get(dict, "group") {
            Some(Object::Str(group)) => NvimString::from_bytes(group.as_bytes().clone()),
            Some(other) => {
                return Err(
                    ConversionError::WrongType { expected: ObjectKind::Str, found: other.kind() },
                );
            },
            None => {
                return Err(
                    ConversionError::WrongType {
                        expected: ObjectKind::Str,
                        found: ObjectKind::Nil,
                    },
                );
            },
        };
        Ok(StatuslineHighlightInfos { start, group })
    }
}

/// The images of parsed highlight records.
pub open spec fn highlights_view(hs: Seq<StatuslineHighlightInfos>) -> Seq<(i64, Seq<u8>)> {
    hs.map_values(|h: StatuslineHighlightInfos| (h.start, h.group@))
}

/// The image of reading a list of highlight records front to back,
/// stopping at the first record of the wrong shape.
pub open spec fn parse_highlights(s: Seq<ObjectView>) -> Result<
    Seq<(i64, Seq<u8>)>,
    ConversionError,
>
    decreases s.len(),
{
    if s.len() == 0 {
        Ok(Seq::empty())
    } else {
        match highlight_from_obj_spec(s[0]) {
            Err(c) => Err(c),
            Ok(h) => match parse_highlights(s.skip(1)) {
                Err(c) => Err(c),
                Ok(rest) => Ok(seq![h] + rest),
            },
        }
    }
}

/// Reads the highlight records of `arr` from position `i` on.
fn parse_highlights_from(arr: &Array, i: usize) -> (r: Result<
    Vec<StatuslineHighlightInfos>,
    ConversionError,
>)
    requires
        i <= arr@.len(),
    ensures
        r matches Ok(hs) ==> parse_highlights(arr_view(arr@).skip(i as int)) == Ok::<
            Seq<(i64, Seq<u8>)>,
            ConversionError,
        >(highlights_view(hs@)),
        r matches Err(c) ==> parse_highlights(arr_view(arr@).skip(i as int)) == Err::<
            Seq<(i64, Seq<u8>)>,
            ConversionError,
        >(c),
    decreases arr@.len() - i,
{
    proof {
        lemma_arr_view(arr@);
    }
    if i == arr.len() {
        proof {
            assert(arr_view(arr@).skip(i as int).len() == 0);
            assert(highlights_view(Seq::empty()) =~= Seq::<(i64, Seq<u8>)>::empty());
        }
        Ok(Vec::new())
    } else {
        let ghost tail = arr_view(arr@).skip(i as int);
        proof {
            assert(tail[0] == arr_view(arr@)[i as int]);
            assert(tail.skip(1) =~= arr_view(arr@).skip(i as int + 1));
        }
        let head = match StatuslineHighlightInfos::from_obj(arr.get(i)) {
            Ok(h) => h,
            Err(c) => {
                return Err(c);
            },
        };
        let mut rest = match parse_highlights_from(arr, i + 1) {
            Ok(hs) => hs,
            Err(c) => {
                return Err(c);
            },
        };
        let ghost rest_snapshot = rest@;
        rest.insert(0, head);
        proof {
            assert(highlights_view(rest@) =~= seq![(head.start, head.group@)] + highlights_view(
                rest_snapshot,
            ));
        }
        Ok(rest)
    }
}

/// The image of reading the whole statusline reply: a mapping whose
/// `str` is a string, whose `width` is an integer fitting the
/// display-width type, and whose `highlights`, when present, is a list
/// of highlight records; a missing `highlights` key means no records
/// were asked for. The parts are read in that order — `highlights`,
/// then `str`, then `width` — and the first wrong shape is the error.
pub open spec fn statusline_from_obj_spec(v: ObjectView) -> Result<
    (Seq<(i64, Seq<u8>)>, Seq<u8>, u32),
    ConversionError,
> {
    match v {
        ObjectView::Dictionary(es) => {
            let highlights = match lookup(es, "highlights".spec_bytes()) {
                None => Ok(Seq::<(i64, Seq<u8>)>::empty()),
                Some(ObjectView::Array(hs)) => parse_highlights(hs),
                Some(other) => Err(
                    ConversionError::WrongType {
                        expected: ObjectKind::Array,
                        found: kind_of(other),
                    },
                ),
            };
            match highlights {
                Err(c) => Err(c),
                Ok(highlights) => match lookup(es, "str".spec_bytes()) {
                    Some(ObjectView::Str(text)) => match lookup(es, "width".spec_bytes()) {
                        Some(ObjectView::Integer(w)) => if 0 <= w <= u32::MAX as i64 {
                            Ok((highlights, text, w as u32))
                        } else {
                            Err(ConversionError::OutOfRange { found: w })
                        },
                        Some(other) => Err(
                            ConversionError::WrongType {
                                expected: ObjectKind::Integer,
                                found: kind_of(other),
                            },
                        ),
                        None => Err(
                            ConversionError::WrongType {
                                expected: ObjectKind::Integer,
                                found: ObjectKind::Nil,
                            },
                        ),
                    },
                    Some(other) => Err(
                        ConversionError::WrongType {
                            expected: ObjectKind::Str,
                            found: kind_of(other),
                        },
                    ),
                    None => Err(
                        ConversionError::WrongType {
                            expected: ObjectKind::Str,
                            found: ObjectKind::Nil,
                        },
                    ),
                },
            }
        },
        _ => Err(ConversionError::WrongType { expected: ObjectKind::Dictionary, found: kind_of(v) }),
    }
}

impl StatuslineInfos {
    /// Reads a statusline reply out of the dynamic value the host
    /// returned.
    pub fn from_obj(obj: &Object) -> (r: Result<StatuslineInfos, ConversionError>)
        ensures
            r matches Ok(s) ==> statusline_from_obj_spec(obj@) == Ok::<
                (Seq<(i64, Seq<u8>)>, Seq<u8>, u32),
                ConversionError,
            >((highlights_view(s.highlights@), s.str@, s.width)),
            r matches Err(c) ==> statusline_from_obj_spec(obj@) == Err::<
                (Seq<(i64, Seq<u8>)>, Seq<u8>, u32),
                ConversionError,
            >(c),
    {
        let k = obj.kind();
        let dict = match obj {
            Object::Dictionary(d) => d,
            _ => {
                return Err(
                    ConversionError::WrongType { expected: ObjectKind::Dictionary, found: k },
                );
            },
        };
        let highlights: Vec<StatuslineHighlightInfos> = match dict_get(dict, "highlights") {
            None => Vec::new(),
            Some(Object::Array(hs)) => {
                proof {
                    assert(arr_view(hs.items@).skip(0) =~= arr_view(hs.items@));
                }
                match parse_highlights_from(hs, 0) {
                    Ok(parsed) => parsed,
                    Err(c) => {
                        return Err(c);
                    },
                }
            },
            Some(other) => {
                return Err(
                    ConversionError::WrongType { expected: ObjectKind::Array, found: other.kind() },
                );
            },
        };
        let text: NvimString = match dict_get(dict, "str") {
            Some(Object::Str(s)) => NvimString::from_bytes(s.as_bytes().clone()),
            Some(other) => {
                return Err(
                    ConversionError::WrongType { expected: ObjectKind::Str, found: other.kind() },
                );
            },
            None => {
                return Err(
                    ConversionError::WrongType {
                        expected: ObjectKind::Str,
                        found: ObjectKind::Nil,
                    },
                );
            },
        };
        let width: u32 = match dict_get(dict, "width") {
            Some(Object::Integer(w)) => {
                let w = *w;
                if 0 <= w && w <= u32::MAX as i64 {
                    w as u32
                } else {
                    return Err(ConversionError::OutOfRange { found: w });
                }
            },
            Some(other) => {
                return Err(
                    ConversionError::WrongType {
                        expected: ObjectKind::Integer,
                        found: other.kind(),
                    },
                );
            },
            None => {
                return Err(
                    ConversionError::WrongType {
                        expected: ObjectKind::Integer,
                        found: ObjectKind::Nil,
                    },
                );
            },
        };
        proof {
            assert(highlights_view(Seq::<StatuslineHighlightInfos>::empty()) =~= Seq::<
                (i64, Seq<u8>),
            >::empty());
        }
        Ok(StatuslineInfos { highlights, str: text, width })
    }
}

} // verus!
