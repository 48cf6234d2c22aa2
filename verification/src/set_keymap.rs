//! Options for installing a key mapping, their builder, and the
//! non-owning keyword-argument record the host call reads. The record
//! borrows the two heap-backed fields and converts the flag fields to
//! dynamic values, so handing it to the host transfers no ownership.

use vstd::prelude::*;

use crate::array::IntoObject;
use crate::non_owning::NonOwning;
use crate::object::{Object, ObjectView};
use vstd::string::StringSliceAdditionalSpecFns;

verus! {

/// Options passed along when a key mapping is installed.
#[derive(Debug)]
pub struct SetKeymapOpts {
    /// A function to call when the mapping is executed, as a dynamic
    /// value; absence when no callback was given.
    pub callback: Object,
    /// A description for the keymap, as a dynamic value; absence when
    /// none was given.
    pub desc: Object,
    /// Whether the keymap argument is an expression.
    pub expr: Option<bool>,
    /// Whether the right-hand side of the mapping shouldn't be
    /// remappable.
    pub noremap: Option<bool>,
    /// For buffer-local mappings, whether the host should wait for
    /// more characters to be typed if there's a global mapping that
    /// could also match.
    pub nowait: Option<bool>,
    /// When `expr` is set, whether to replace the keycodes in the
    /// resulting string.
    pub replace_keycodes: Option<bool>,
    /// Whether to remap characters in the right-hand side by expanding
    /// the script tag.
    pub script: Option<bool>,
    /// Whether the keymap should be silent.
    pub silent: Option<bool>,
    /// If set, installing the keymap fails when another keymap with
    /// the same left-hand side already exists.
    pub unique: Option<bool>,
}

impl Default for SetKeymapOpts {
    /// No callback, no description, no flag set.
    fn default() -> (r: SetKeymapOpts)
        ensures
            r.callback@ is Nil,
            r.desc@ is Nil,
            r.expr is None,
            r.noremap is None,
            r.nowait is None,
            r.replace_keycodes is None,
            r.script is None,
            r.silent is None,
            r.unique is None,
    {
        SetKeymapOpts {
            callback: Object::Nil,
            desc: Object::Nil,
            expr: None,
            noremap: None,
            nowait: None,
            replace_keycodes: None,
            script: None,
            silent: None,
            unique: None,
        }
    }
}

impl SetKeymapOpts {
    /// Creates a new [`SetKeymapOptsBuilder`].
    pub fn builder() -> (r: SetKeymapOptsBuilder)
        ensures
            r.opts.callback@ is Nil,
            r.opts.desc@ is Nil,
            r.opts.expr is None,
            r.opts.noremap is None,
            r.opts.nowait is None,
            r.opts.replace_keycodes is None,
            r.opts.script is None,
            r.opts.silent is None,
            r.opts.unique is None,
    {
        SetKeymapOptsBuilder { opts: Default::default() }
    }
}

/// Builds a [`SetKeymapOpts`] one field at a time, starting from the
/// all-unset default; every field keeps its default until its setter
/// runs.
#[derive(Debug)]
pub struct SetKeymapOptsBuilder {
    pub opts: SetKeymapOpts,
}

impl SetKeymapOptsBuilder {
    /// A function to call when the mapping is executed.
    pub fn callback(self, fun: Object) -> (r: SetKeymapOptsBuilder)
        ensures
            r.opts.callback == fun,
            r.opts.desc == self.opts.desc,
            r.opts.expr == self.opts.expr,
            r.opts.noremap == self.opts.noremap,
            r.opts.nowait == self.opts.nowait,
            r.opts.replace_keycodes == self.opts.replace_keycodes,
            r.opts.script == self.opts.script,
            r.opts.silent == self.opts.silent,
            r.opts.unique == self.opts.unique,
    {
        let mut opts = self.opts;
        opts.callback = fun;
        SetKeymapOptsBuilder { opts }
    }

    /// A description for the keymap.
    pub fn desc(self, desc: &str) -> (r: SetKeymapOptsBuilder)
        ensures
            r.opts.desc@ == ObjectView::Str(desc.spec_bytes()),
            r.opts.callback == self.opts.callback,
            r.opts.expr == self.opts.expr,
            r.opts.noremap == self.opts.noremap,
            r.opts.nowait == self.opts.nowait,
            r.opts.replace_keycodes == self.opts.replace_keycodes,
            r.opts.script == self.opts.script,
            r.opts.silent == self.opts.silent,
            r.opts.unique == self.opts.unique,
    {
        let mut opts = self.opts;
        opts.desc = Object::from_str(desc);
        SetKeymapOptsBuilder { opts }
    }

    pub fn expr(self, expr: bool) -> (r: SetKeymapOptsBuilder)
        ensures
            r.opts.expr == Some(expr),
            r.opts.callback == self.opts.callback,
            r.opts.desc == self.opts.desc,
            r.opts.noremap == self.opts.noremap,
            r.opts.nowait == self.opts.nowait,
            r.opts.replace_keycodes == self.opts.replace_keycodes,
            r.opts.script == self.opts.script,
            r.opts.silent == self.opts.silent,
            r.opts.unique == self.opts.unique,
    {
        let mut opts = self.opts;
        opts.expr = Some(expr);
        SetKeymapOptsBuilder { opts }
    }

    pub fn noremap(self, noremap: bool) -> (r: SetKeymapOptsBuilder)
        ensures
            r.opts.noremap == Some(noremap),
            r.opts.callback == self.opts.callback,
            r.opts.desc == self.opts.desc,
            r.opts.expr == self.opts.expr,
            r.opts.nowait == self.opts.nowait,
            r.opts.replace_keycodes == self.opts.replace_keycodes,
            r.opts.script == self.opts.script,
            r.opts.silent == self.opts.silent,
            r.opts.unique == self.opts.unique,
    {
        let mut opts = self.opts;
        opts.noremap = Some(noremap);
        SetKeymapOptsBuilder { opts }
    }

    pub fn nowait(self, nowait: bool) -> (r: SetKeymapOptsBuilder)
        ensures
            r.opts.nowait == Some(nowait),
            r.opts.callback == self.opts.callback,
            r.opts.desc == self.opts.desc,
            r.opts.expr == self.opts.expr,
            r.opts.noremap == self.opts.noremap,
            r.opts.replace_keycodes == self.opts.replace_keycodes,
            r.opts.script == self.opts.script,
            r.opts.silent == self.opts.silent,
            r.opts.unique == self.opts.unique,
    {
        let mut opts = self.opts;
        opts.nowait = Some(nowait);
        SetKeymapOptsBuilder { opts }
    }

    pub fn replace_keycodes(self, replace_keycodes: bool) -> (r: SetKeymapOptsBuilder)
        ensures
            r.opts.replace_keycodes == Some(replace_keycodes),
            r.opts.callback == self.opts.callback,
            r.opts.desc == self.opts.desc,
            r.opts.expr == self.opts.expr,
            r.opts.noremap == self.opts.noremap,
            r.opts.nowait == self.opts.nowait,
            r.opts.script == self.opts.script,
            r.opts.silent == self.opts.silent,
            r.opts.unique == self.opts.unique,
    {
        let mut opts = self.opts;
        opts.replace_keycodes = Some(replace_keycodes);
        SetKeymapOptsBuilder { opts }
    }

    pub fn script(self, script: bool) -> (r: SetKeymapOptsBuilder)
        ensures
            r.opts.script == Some(script),
            r.opts.callback == self.opts.callback,
            r.opts.desc == self.opts.desc,
            r.opts.expr == self.opts.expr,
            r.opts.noremap == self.opts.noremap,
            r.opts.nowait == self.opts.nowait,
            r.opts.replace_keycodes == self.opts.replace_keycodes,
            r.opts.silent == self.opts.silent,
            r.opts.unique == self.opts.unique,
    {
        let mut opts = self.opts;
        opts.script = Some(script);
        SetKeymapOptsBuilder { opts }
    }

    pub fn silent(self, silent: bool) -> (r: SetKeymapOptsBuilder)
        ensures
            r.opts.silent == Some(silent),
            r.opts.callback == self.opts.callback,
            r.opts.desc == self.opts.desc,
            r.opts.expr == self.opts.expr,
            r.opts.noremap == self.opts.noremap,
            r.opts.nowait == self.opts.nowait,
            r.opts.replace_keycodes == self.opts.replace_keycodes,
            r.opts.script == self.opts.script,
            r.opts.unique == self.opts.unique,
    {
        let mut opts = self.opts;
        opts.silent = Some(silent);
        SetKeymapOptsBuilder { opts }
    }

    pub fn unique(self, unique: bool) -> (r: SetKeymapOptsBuilder)
        ensures
            r.opts.unique == Some(unique),
            r.opts.callback == self.opts.callback,
            r.opts.desc == self.opts.desc,
            r.opts.expr == self.opts.expr,
            r.opts.noremap == self.opts.noremap,
            r.opts.nowait == self.opts.nowait,
            r.opts.replace_keycodes == self.opts.replace_keycodes,
            r.opts.script == self.opts.script,
            r.opts.silent == self.opts.silent,
    {
        let mut opts = self.opts;
        opts.unique = Some(unique);
        SetKeymapOptsBuilder { opts }
    }

    /// Hands the built options out. Building never fails: every field
    /// has a default.
    pub fn build(self) -> (r: SetKeymapOpts)
        ensures
            r == self.opts,
    {
        self.opts
    }
}

/// The keyword-argument record the host's keymap call reads, laid out
/// field for field as the host expects it. The two heap-backed fields
/// are borrowed, not owned; the flags are converted to dynamic values.
#[allow(non_camel_case_types)]
pub struct KeyDict_keymap<'a> {
    pub desc: NonOwning<'a, Object>,
    pub expr: Object,
    pub script: Object,
    pub silent: Object,
    pub unique: Object,
    pub nowait: Object,
    pub noremap: Object,
    pub callback: NonOwning<'a, Object>,
    pub replace_keycodes: Object,
}

/// The image of an optional flag as a dynamic value: absence when
/// unset.
pub open spec fn flag_view(flag: Option<bool>) -> ObjectView {
    match flag {
        None => ObjectView::Nil,
        Some(b) => ObjectView::Boolean(b),
    }
}

impl<'a> KeyDict_keymap<'a> {
    /// Borrows the options as the record the host call reads: the
    /// callback and description are non-owning views of the options'
    /// own values, and each flag becomes a dynamic value.
    pub fn from_opts(opts: &'a SetKeymapOpts) -> (r: KeyDict_keymap<'a>)
        ensures
            r.desc@ == opts.desc@,
            r.callback@ == opts.callback@,
            r.expr@ == flag_view(opts.expr),
            r.script@ == flag_view(opts.script),
            r.silent@ == flag_view(opts.silent),
            r.unique@ == flag_view(opts.unique),
            r.nowait@ == flag_view(opts.nowait),
            r.noremap@ == flag_view(opts.noremap),
            r.replace_keycodes@ == flag_view(opts.replace_keycodes),
    {
        KeyDict_keymap {
            desc: NonOwning::new(&opts.desc),
            expr: opts.expr.into_object(),
            script: opts.script.into_object(),
            silent: opts.silent.into_object(),
            unique: opts.unique.into_object(),
            nowait: opts.nowait.into_object(),
            noremap: opts.noremap.into_object(),
            callback: NonOwning::new(&opts.callback),
            replace_keycodes: opts.replace_keycodes.into_object(),
        }
    }
}

} // verus!
