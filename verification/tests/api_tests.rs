//! The error-slot glue, the window operations' local halves, the
//! keymap options builder, and the statusline reply parser.

use nvim_oxi::array::Array;
use nvim_oxi::collection::Collection;
use nvim_oxi::dictionary::Dictionary;
use nvim_oxi::error::{ConversionError, Error, ErrorKind, ErrorSlot};
use nvim_oxi::nvim_string::NvimString;
use nvim_oxi::object::{Object, ObjectKind};
use nvim_oxi::registry::ClosureRegistry;
use nvim_oxi::set_keymap::{KeyDict_keymap, SetKeymapOpts};
use nvim_oxi::statusline::StatuslineInfos;
use nvim_oxi::window::{cursor_position, usize_from_obj, Buffer, TabPage, Window};

fn foreign_error() -> ErrorSlot {
    ErrorSlot::populated(
        ErrorKind::Validation,
        NvimString::from_bytes(b"Invalid window id".to_vec()),
    )
}

#[test]
fn populated_slot_beats_a_valid_success_value() {
    let r = foreign_error().into_err_or(42i64);
    match r {
        Err(Error::Foreign(kind, msg)) => {
            assert_eq!(ErrorKind::Validation, kind);
            assert_eq!(b"Invalid window id".to_vec(), msg.into_bytes());
        }
        _ => panic!("a populated slot must become the foreign error"),
    }
}

#[test]
fn populated_slot_beats_a_failed_local_interpretation() {
    // Even when interpreting the (garbage) success value failed on its
    // own, the foreign error is what comes out.
    let local: Result<i64, ConversionError> = Err(ConversionError::WrongType {
        expected: ObjectKind::Integer,
        found: ObjectKind::Nil,
    });
    let r = foreign_error().into_err_or_flatten(local);
    assert!(matches!(r, Err(Error::Foreign(ErrorKind::Validation, _))));
}

#[test]
fn empty_slot_lets_the_local_result_through() {
    assert!(matches!(ErrorSlot::new().into_err_or(5i64), Ok(5)));

    let ok: Result<i64, ConversionError> = Ok(7);
    assert!(matches!(ErrorSlot::new().into_err_or_flatten(ok), Ok(7)));

    let bad: Result<i64, ConversionError> = Err(ConversionError::OutOfRange { found: -1 });
    assert!(matches!(
        ErrorSlot::new().into_err_or_flatten(bad),
        Err(Error::Conversion(ConversionError::OutOfRange { found: -1 }))
    ));
}

#[test]
fn cursor_reply_parses_two_integers() {
    let w = Window::current(1);
    let mut reply: Array = Collection::new();
    reply.push(Object::from_integer(3));
    reply.push(Object::from_integer(7));
    assert!(matches!(w.get_cursor(ErrorSlot::new(), reply), Ok((3, 7))));
}

#[test]
fn cursor_reply_rejects_wrong_shapes() {
    let w = Window::current(1);

    let mut reply: Array = Collection::new();
    reply.push(Object::from_str("three"));
    reply.push(Object::from_integer(7));
    assert!(matches!(
        w.get_cursor(ErrorSlot::new(), reply),
        Err(Error::Conversion(ConversionError::WrongType {
            expected: ObjectKind::Integer,
            found: ObjectKind::Str,
        }))
    ));

    let mut reply: Array = Collection::new();
    reply.push(Object::from_integer(-1));
    reply.push(Object::from_integer(7));
    assert!(matches!(
        w.get_position(ErrorSlot::new(), reply),
        Err(Error::Conversion(ConversionError::OutOfRange { found: -1 }))
    ));
}

#[test]
fn cursor_reply_is_not_interpreted_on_a_foreign_error() {
    let w = Window::current(1);
    // The reply is garbage — too short to parse — but the populated
    // slot wins before anything looks at it.
    let reply: Array = Collection::new();
    assert!(matches!(
        w.get_cursor(foreign_error(), reply),
        Err(Error::Foreign(ErrorKind::Validation, _))
    ));
}

#[test]
fn window_queries_report_the_foreign_error_or_the_value() {
    let w = Window::current(2);
    assert!(matches!(w.get_buf(ErrorSlot::new(), 5), Ok(Buffer(5))));
    assert!(matches!(
        w.get_buf(foreign_error(), 5),
        Err(Error::Foreign(..))
    ));
    assert!(matches!(
        w.get_tabpage(ErrorSlot::new(), 3),
        Ok(TabPage(3))
    ));
    assert!(matches!(w.get_height(ErrorSlot::new(), 24), Ok(24u32)));
    assert!(matches!(w.get_number(ErrorSlot::new(), 1), Ok(1u32)));
    assert!(matches!(w.get_width(ErrorSlot::new(), 80), Ok(80u32)));
    assert!(matches!(w.get_var(ErrorSlot::new(), Object::from_bool(true)), Ok(_)));
    assert!(matches!(
        w.get_option(foreign_error(), Object::nil()),
        Err(Error::Foreign(..))
    ));
}

#[test]
fn window_updates_follow_the_error_slot() {
    let mut w = Window::current(2);
    assert!(matches!(w.set_buf(ErrorSlot::new()), Ok(())));
    assert!(matches!(w.set_cursor(ErrorSlot::new()), Ok(())));
    assert!(matches!(w.set_height(foreign_error()), Err(Error::Foreign(..))));
    assert!(matches!(w.set_width(ErrorSlot::new()), Ok(())));
    assert!(matches!(w.set_option(foreign_error()), Err(Error::Foreign(..))));
    assert!(matches!(w.set_var(ErrorSlot::new()), Ok(())));
    assert!(matches!(w.del_var(ErrorSlot::new()), Ok(())));
    assert!(matches!(w.close(true, ErrorSlot::new()), Ok(())));
    let w2 = Window::current(2);
    assert!(matches!(w2.hide_window(foreign_error()), Err(Error::Foreign(..))));
}

#[test]
fn cursor_position_marshals_the_pair() {
    let pos = cursor_position(3, 0);
    assert_eq!(2, pos.len());
    assert!(pos.get(0).obj_eq(&Object::from_integer(3)));
    assert!(pos.get(1).obj_eq(&Object::from_integer(0)));
}

#[test]
fn usize_from_obj_checks_shape_and_range() {
    assert_eq!(Ok(9usize), usize_from_obj(&Object::from_integer(9)));
    assert!(matches!(
        usize_from_obj(&Object::from_integer(-3)),
        Err(ConversionError::OutOfRange { found: -3 })
    ));
    assert!(matches!(
        usize_from_obj(&Object::from_bool(true)),
        Err(ConversionError::WrongType { .. })
    ));
}

#[test]
fn window_call_unregisters_only_on_success() {
    let mut registry: ClosureRegistry<i64> = ClosureRegistry::new();
    let w = Window::current(4);

    let r = registry.register_one_shot(10);
    let out = w.call(&mut registry, r, ErrorSlot::new(), Object::from_bool(true));
    assert!(matches!(out, Ok(_)));
    assert!(!registry.resolve(r));

    let r2 = registry.register_one_shot(11);
    let out = w.call(&mut registry, r2, foreign_error(), Object::nil());
    assert!(matches!(out, Err(Error::Foreign(..))));
    assert!(registry.resolve(r2));
}

#[test]
fn window_round_trips_through_objects() {
    let w = Window::current(6);
    let obj = w.to_object();
    assert!(matches!(Window::from_obj(obj), Ok(Window(6))));
    assert!(matches!(
        Window::from_obj(Object::from_integer(6)),
        Err(ConversionError::WrongType {
            expected: ObjectKind::WinHandle,
            found: ObjectKind::Integer,
        })
    ));
    assert_eq!(6, w.handle());
}

#[test]
fn keymap_builder_sets_only_what_was_asked() {
    let opts = SetKeymapOpts::builder()
        .desc("swap lines")
        .silent(true)
        .noremap(false)
        .build();
    assert!(opts.desc.obj_eq(&Object::from_str("swap lines")));
    assert!(opts.callback.obj_eq(&Object::nil()));
    assert_eq!(Some(true), opts.silent);
    assert_eq!(Some(false), opts.noremap);
    assert_eq!(None, opts.expr);
    assert_eq!(None, opts.nowait);
    assert_eq!(None, opts.replace_keycodes);
    assert_eq!(None, opts.script);
    assert_eq!(None, opts.unique);
}

#[test]
fn keymap_dict_borrows_and_converts() {
    let opts = SetKeymapOpts::builder()
        .callback(Object::from_luaref(12))
        .expr(true)
        .unique(false)
        .build();
    let dict = KeyDict_keymap::from_opts(&opts);
    assert!(dict.callback.as_borrowed().obj_eq(&Object::from_luaref(12)));
    assert!(dict.desc.as_borrowed().obj_eq(&Object::nil()));
    assert!(dict.expr.obj_eq(&Object::from_bool(true)));
    assert!(dict.unique.obj_eq(&Object::from_bool(false)));
    assert!(dict.silent.obj_eq(&Object::nil()));
    assert!(dict.nowait.obj_eq(&Object::nil()));
}

fn statusline_reply(with_highlights: bool) -> Object {
    let mut entries = vec![
        (Object::from_str("str"), Object::from_str("main.rs")),
        (Object::from_str("width"), Object::from_integer(7)),
    ];
    if with_highlights {
        let hl = Dictionary::from_pairs(vec![
            ("start", Object::from_integer(0)),
            ("group", Object::from_str("Normal")),
        ]);
        let hls = Array::from_iter(vec![Object::from_dictionary(hl)]);
        entries.push((Object::from_str("highlights"), Object::from_array(hls)));
    }
    Object::from_dictionary(Dictionary::from_pairs(entries))
}

#[test]
fn statusline_reply_parses_all_fields() {
    let infos = StatuslineInfos::from_obj(&statusline_reply(true)).unwrap();
    assert_eq!(b"main.rs".to_vec(), infos.str.into_bytes());
    assert_eq!(7, infos.width);
    assert_eq!(1, infos.highlights.len());
    assert_eq!(0, infos.highlights[0].start);
    assert_eq!(b"Normal", infos.highlights[0].group.as_bytes().as_slice());
}

#[test]
fn statusline_highlights_default_to_empty() {
    let infos = StatuslineInfos::from_obj(&statusline_reply(false)).unwrap();
    assert_eq!(0, infos.highlights.len());
    assert_eq!(7, infos.width);
}

#[test]
fn statusline_reply_of_the_wrong_shape_is_rejected() {
    assert!(matches!(
        StatuslineInfos::from_obj(&Object::from_integer(1)),
        Err(ConversionError::WrongType {
            expected: ObjectKind::Dictionary,
            found: ObjectKind::Integer,
        })
    ));

    let missing_width = Object::from_dictionary(Dictionary::from_pairs(vec![(
        "str",
        Object::from_str("x"),
    )]));
    assert!(matches!(
        StatuslineInfos::from_obj(&missing_width),
        Err(ConversionError::WrongType {
            expected: ObjectKind::Integer,
            found: ObjectKind::Nil,
        })
    ));
}
