//! Properties that hold of every erasure, stated over what `maybe_debug` promises.

use vstd::prelude::*;
use crate::backend::{Backend, Subject};
use crate::repr::{counted, elided, listed, str_name, views_of};
use crate::text::quoted_of;

verus! {

/// A value whose type formats itself keeps its own rendering under the specializing
/// backend; under the baseline backend it renders as its type name with elided fields.
pub proof fn lemma_formattable_value(backend: Backend, name: &'static str, text: String)
    ensures
        ({
            let s = Subject::Value { name, debug: Some(text) };
            &&& backend is Specializing ==> backend.keeps_info(s) && backend.shown(s) == text@
            &&& backend is Baseline ==> !backend.keeps_info(s) && backend.shown(s) == elided(name@)
        }),
{
}

/// A value whose type does not format itself never keeps a rendering, under either
/// backend, and renders as its type name with elided fields.
pub proof fn lemma_unformattable_value(backend: Backend, name: &'static str)
    ensures
        ({
            let s = Subject::Value { name, debug: None };
            !backend.keeps_info(s) && backend.shown(s) == elided(name@)
        }),
{
}

/// The type name is never empty: a type's name is not, and that of a string slice is
/// `str`. It does not depend on the backend, since the erasure carries it unchanged.
pub proof fn lemma_name_nonempty(subject: Subject)
    requires
        subject.name_view().len() > 0 || subject is Str,
    ensures
        subject.name_view().len() > 0,
{
    reveal_strlit("str");
    assert(str_name().len() == 3);
}

/// A non-empty sequence of elements that format themselves renders, under the
/// specializing backend, as the list of the elements' renderings in order; under the
/// baseline backend, or where the elements do not format themselves, as its length and
/// element type name.
pub proof fn lemma_sequence(backend: Backend, name: &'static str, len: usize, entries: Option<Vec<String>>)
    requires
        len > 0,
        entries matches Some(v) ==> v@.len() == len,
    ensures
        ({
            let s = Subject::Slice { name, len, entries };
            &&& (backend is Specializing && entries is Some) ==> backend.keeps_info(s)
                && backend.shown(s) == listed(views_of(entries->0@))
            &&& (backend is Baseline || entries is None) ==> !backend.keeps_info(s)
                && backend.shown(s) == counted(len as nat, name@)
        }),
{
}

/// An empty sequence renders as an empty list, whatever the backend and element type.
pub proof fn lemma_empty_sequence(backend: Backend, name: &'static str, entries: Option<Vec<String>>)
    ensures
        backend.shown(Subject::Slice { name, len: 0, entries }) == "[]"@,
{
}

/// A string slice always keeps its rendering, quoted, under either backend.
pub proof fn lemma_str(backend: Backend, s: &str)
    ensures
        backend.keeps_info(Subject::Str(s)),
        backend.shown(Subject::Str(s)) == quoted_of(s@),
{
}

} // verus!
