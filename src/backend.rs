//! The strategies that decide whether a value's own rendering is used.

use vstd::prelude::*;
use crate::repr::{elided, listed, counted, str_name, views_of, MaybeDebug, MaybeDebugSlice};
use crate::text::quoted_of;

verus! {

/// The strategy that decides whether a value's own rendering can be used: a specializing
/// one, which sees whether the value's type formats itself, or a baseline one, which
/// never does.
#[derive(Clone, Copy, PartialEq, Eq, Structural)]
pub enum Backend {
    Specializing,
    Baseline,
}

/// What is known of a value handed over for erasure.
pub enum Subject<'a> {
    /// A value of a type named `name`; `debug` is its rendering where its type formats itself.
    Value { name: &'static str, debug: Option<String> },
    /// A sequence of `len` elements of a type named `name`; `entries` holds each element's
    /// rendering, in order, where that type formats itself.
    Slice { name: &'static str, len: usize, entries: Option<Vec<String>> },
    /// A string slice.
    Str(&'a str),
}

impl<'a> Subject<'a> {
    /// Per-element renderings, where given, are one for each element.
    pub open spec fn wf(&self) -> bool {
        match self {
            Subject::Slice { len, entries, .. } => entries matches Some(v) ==> v@.len() == *len,
            _ => true,
        }
    }

    /// The name of the value's type.
    pub open spec fn name_view(&self) -> Seq<char> {
        match self {
            Subject::Value { name, .. } => name@,
            Subject::Slice { name, .. } => name@,
            Subject::Str(_) => str_name(),
        }
    }
}

impl Backend {
    /// Whether the erasure of `subject` keeps the value's own rendering.
    pub open spec fn keeps_info(self, subject: Subject) -> bool {
        match subject {
            Subject::Value { debug, .. } => self is Specializing && debug is Some,
            Subject::Slice { len, entries, .. } => self is Specializing && entries is Some && len > 0,
            Subject::Str(_) => true,
        }
    }

    /// What the erasure of `subject` renders to.
    pub open spec fn shown(self, subject: Subject) -> Seq<char> {
        match subject {
            Subject::Value { name, debug } => match debug {
                Some(t) if self is Specializing => t@,
                _ => elided(name@),
            },
            Subject::Slice { name, len, entries } => if len == 0 {
                "[]"@
            } else {
                match entries {
                    Some(v) if self is Specializing => listed(views_of(v@)),
                    _ => counted(len as nat, name@),
                }
            },
            Subject::Str(s) => quoted_of(s@),
        }
    }

    /// The capability cast: the value's rendering where this backend sees that its type
    /// formats itself, and nothing otherwise.
    pub fn cast_debug(self, debug: Option<String>) -> (r: Option<String>)
        ensures
            self is Specializing ==> r == debug,
            self is Baseline ==> r is None,
    {
        match self {
            Backend::Specializing => debug,
            Backend::Baseline => None,
        }
    }

    /// Erases a sequence of `len` elements named `name`: nothing is kept when it is empty;
    /// otherwise its first element is cast, and where that yields a rendering the
    /// renderings of all elements are kept.
    pub fn erase_slice(self, name: &'static str, len: usize, entries: Option<Vec<String>>) -> (r: MaybeDebugSlice)
        requires
            entries matches Some(v) ==> v@.len() == len,
        ensures
            r.wf(),
            r.len_view() == len,
            r.name_view() == name@,
            r.entries_view() == (match entries {
                Some(v) if self is Specializing && len > 0 => Some(views_of(v@)),
                _ => None,
            }),
    {
        if len == 0 {
            return MaybeDebugSlice::with_entries(name, len, None);
        }
        let kept = match entries {
            Some(v) => match self.cast_debug(Some(v[0].clone())) {
                Some(_) => Some(v),
                None => None,
            },
            None => None,
        };
        MaybeDebugSlice::with_entries(name, len, kept)
    }
}

/// Erases `subject`: a sequence or a string slice always keeps its kind; a plain value
/// keeps its rendering exactly when the capability cast yields it, and is otherwise
/// known by its type name.
pub fn maybe_debug<'a>(backend: Backend, subject: Subject<'a>) -> (r: MaybeDebug<'a>)
    requires
        subject.wf(),
    ensures
        r.wf(),
        r.has_info() == backend.keeps_info(subject),
        r.name_view() == subject.name_view(),
        r.slice_len() == (match subject {
            Subject::Slice { len, .. } => Some(len as nat),
            _ => None,
        }),
        r.rendered() == backend.shown(subject),
{
    match subject {
        Subject::Value { name, debug } => match backend.cast_debug(debug) {
            Some(text) => MaybeDebug::passthrough(name, text),
            None => MaybeDebug::fallback(name),
        },
        Subject::Slice { name, len, entries } => MaybeDebug::Slice(backend.erase_slice(name, len, entries)),
        Subject::Str(s) => MaybeDebug::passthrough_str(s),
    }
}

} // verus!
