//! The type-erased representation and its rendering.

use vstd::prelude::*;
use vstd::string::StringExecFns;
use crate::backend::Backend;
use crate::text::{decimal, joined, push_decimal, push_joined, quoted, quoted_of};

verus! {

/// What the type name of a string slice reads.
pub open spec fn str_name() -> Seq<char> {
    "str"@
}

/// The rendering of a value known only by its type name: a struct whose fields are elided.
pub open spec fn elided(name: Seq<char>) -> Seq<char> {
    name + " { .. }"@
}

/// The rendering of a sequence known only by its length and element type name.
pub open spec fn counted(len: nat, name: Seq<char>) -> Seq<char> {
    "["@ + decimal(len) + " of "@ + name + "]"@
}

/// The rendering of an ordered list of entries.
pub open spec fn listed(entries: Seq<Seq<char>>) -> Seq<char> {
    "["@ + joined(entries) + "]"@
}

/// The views of a list of strings.
pub open spec fn views_of(v: Seq<String>) -> Seq<Seq<char>> {
    v.map_values(|e: String| e@)
}

/// A homogeneous sequence with its type erased: its length, its element type's name and,
/// where the elements format themselves, each element's rendering in order.
pub struct MaybeDebugSlice {
    len: usize,
    elem_name: &'static str,
    entries: Option<Vec<String>>,
}

impl MaybeDebugSlice {
    /// The length of the original sequence.
    pub closed spec fn len_view(&self) -> nat {
        self.len as nat
    }

    /// The name of the element type.
    pub closed spec fn name_view(&self) -> Seq<char> {
        self.elem_name@
    }

    /// The renderings of the elements, where the element type formats itself.
    pub closed spec fn entries_view(&self) -> Option<Seq<Seq<char>>> {
        match self.entries {
            Some(v) => Some(views_of(v@)),
            None => None,
        }
    }

    /// Per-element renderings are kept only for a non-empty sequence, one for each element.
    pub open spec fn wf(&self) -> bool {
        match self.entries_view() {
            Some(e) => e.len() == self.len_view() && self.len_view() > 0,
            None => true,
        }
    }

    /// Whether the elements format themselves.
    pub open spec fn has_info(&self) -> bool {
        self.entries_view() is Some
    }

    /// What the sequence renders to.
    pub open spec fn rendered(&self) -> Seq<char> {
        if self.len_view() == 0 {
            "[]"@
        } else {
            match self.entries_view() {
                Some(e) => listed(e),
                None => counted(self.len_view(), self.name_view()),
            }
        }
    }

    /// Builds the view of a sequence of `len` elements named `elem_name`, with the given
    /// element renderings; none are kept for an empty sequence.
    pub(crate) fn with_entries(elem_name: &'static str, len: usize, entries: Option<Vec<String>>) -> (r: Self)
        requires
            entries matches Some(v) ==> v@.len() == len,
        ensures
            r.wf(),
            r.len_view() == len,
            r.name_view() == elem_name@,
            r.entries_view() == (if len == 0 {
                None
            } else {
                match entries {
                    Some(v) => Some(views_of(v@)),
                    None => None,
                }
            }),
    {
        let entries = if len == 0 {
            None
        } else {
            entries
        };
        MaybeDebugSlice { len, elem_name, entries }
    }

    /// Whether the elements format themselves.
    pub fn has_debug_info(&self) -> (r: bool)
        ensures
            r == self.has_info(),
    {
        self.entries.is_some()
    }

    /// The length of the original sequence.
    pub fn original_len(&self) -> (r: usize)
        ensures
            r == self.len_view(),
    {
        self.len
    }

    /// The name of the element type.
    pub fn elem_type_name(&self) -> (r: &'static str)
        ensures
            r@ == self.name_view(),
    {
        self.elem_name
    }

    /// Renders the sequence: `[]` when empty, the elements' renderings as a list where
    /// they have them, and otherwise its length and element type name.
    pub fn render(&self) -> (r: String)
        ensures
            r@ == self.rendered(),
    {
        proof {
            reveal_strlit("[]");
            reveal_strlit("[");
            reveal_strlit("]");
            reveal_strlit(" of ");
        }
        let mut out = String::new();
        if self.len == 0 {
            out.append("[]");
        } else {
            match &self.entries {
                Some(v) => {
                    out.append("[");
                    push_joined(&mut out, v);
                    out.append("]");
                },
                None => {
                    out.append("[");
                    push_decimal(&mut out, self.len);
                    out.append(" of ");
                    out.append(self.elem_name);
                    out.append("]");
                },
            }
        }
        assert(out@ =~= self.rendered());
        out
    }
}

/// A value with its type erased, which renders either as the value itself or, where its
/// type does not format itself, from its type's name.
pub enum MaybeDebug<'a> {
    /// A value whose type formats itself: its type name and its rendering.
    DynTrait { name: &'static str, text: String },
    /// A value known only by its type name.
    TypeName { name: &'static str },
    /// A homogeneous sequence.
    Slice(MaybeDebugSlice),
    /// A string slice.
    Str(&'a str),
}

impl<'a> MaybeDebug<'a> {
    /// Whether the value's own rendering is available.
    pub open spec fn has_info(&self) -> bool {
        match self {
            MaybeDebug::DynTrait { .. } => true,
            MaybeDebug::TypeName { .. } => false,
            MaybeDebug::Slice(s) => s.has_info(),
            MaybeDebug::Str(_) => true,
        }
    }

    /// The name of the original type.
    pub open spec fn name_view(&self) -> Seq<char> {
        match self {
            MaybeDebug::DynTrait { name, .. } => name@,
            MaybeDebug::TypeName { name } => name@,
            MaybeDebug::Slice(s) => s.name_view(),
            MaybeDebug::Str(_) => str_name(),
        }
    }

    /// The length of the original sequence, where the value is known to be one.
    pub open spec fn slice_len(&self) -> Option<nat> {
        match self {
            MaybeDebug::Slice(s) => Some(s.len_view()),
            _ => None,
        }
    }

    /// The sequence parts are well formed.
    pub open spec fn wf(&self) -> bool {
        match self {
            MaybeDebug::Slice(s) => s.wf(),
            _ => true,
        }
    }

    /// What the value renders to.
    pub open spec fn rendered(&self) -> Seq<char> {
        match self {
            MaybeDebug::DynTrait { text, .. } => text@,
            MaybeDebug::TypeName { name } => elided(name@),
            MaybeDebug::Slice(s) => s.rendered(),
            MaybeDebug::Str(s) => quoted_of(s@),
        }
    }

    /// Whether the value's own rendering is available (for a sequence: its elements').
    pub fn has_debug_info(&self) -> (r: bool)
        ensures
            r == self.has_info(),
    {
        match self {
            MaybeDebug::Str(_) | MaybeDebug::DynTrait { .. } => true,
            MaybeDebug::TypeName { .. } => false,
            MaybeDebug::Slice(s) => s.has_debug_info(),
        }
    }

    /// Whether the rendering falls back on the type name.
    pub fn is_fallback(&self) -> (r: bool)
        ensures
            r == !self.has_info(),
    {
        !self.has_debug_info()
    }

    /// Whether the value is known to be a sequence; a sequence erased as a plain value
    /// is not.
    pub fn is_known_slice(&self) -> (r: bool)
        ensures
            r == (self is Slice),
    {
        matches!(self, MaybeDebug::Slice(_))
    }

    /// The length of the original sequence, where the value is known to be one.
    pub fn original_slice_len(&self) -> (r: Option<usize>)
        ensures
            r matches Some(n) ==> self.slice_len() == Some(n as nat),
            r is None ==> self.slice_len() is None,
    {
        match self {
            MaybeDebug::Slice(s) => Some(s.original_len()),
            _ => None,
        }
    }

    /// The name of the original type, whatever the variant.
    pub fn name_of_type(&self) -> (r: &'static str)
        ensures
            r@ == self.name_view(),
    {
        proof {
            reveal_strlit("str");
        }
        match self {
            MaybeDebug::DynTrait { name, .. } => name,
            MaybeDebug::TypeName { name } => name,
            MaybeDebug::Slice(s) => s.elem_type_name(),
            MaybeDebug::Str(_) => "str",
        }
    }

    /// A value whose type formats itself, given its type name and its rendering.
    pub fn passthrough(name: &'static str, text: String) -> (r: Self)
        ensures
            r == (MaybeDebug::DynTrait { name, text }),
    {
        MaybeDebug::DynTrait { name, text }
    }

    /// A string slice, rendered quoted.
    pub fn passthrough_str(val: &'a str) -> (r: Self)
        ensures
            r == MaybeDebug::Str(val),
    {
        MaybeDebug::Str(val)
    }

    /// A sequence whose elements are known to format themselves, given their renderings.
    /// Only a specializing backend can keep them; the baseline one keeps the length.
    pub fn passthrough_slice(backend: Backend, elem_name: &'static str, entries: Vec<String>) -> (r: Self)
        ensures
            r.wf(),
            r.slice_len() == Some(entries@.len()),
            r.name_view() == elem_name@,
            r matches MaybeDebug::Slice(s) && s.entries_view() == (
                if backend is Specializing && entries@.len() > 0 {
                    Some(views_of(entries@))
                } else {
                    None
                }),
    {
        let len = entries.len();
        match backend {
            Backend::Specializing => MaybeDebug::Slice(MaybeDebugSlice::with_entries(elem_name, len, Some(entries))),
            Backend::Baseline => MaybeDebug::fallback_slice(elem_name, len),
        }
    }

    /// A sequence rendered from its length and element type name alone.
    pub fn fallback_slice(elem_name: &'static str, len: usize) -> (r: Self)
        ensures
            r.wf(),
            r.slice_len() == Some(len as nat),
            r.name_view() == elem_name@,
            r matches MaybeDebug::Slice(s) && s.entries_view() is None,
    {
        MaybeDebug::Slice(MaybeDebugSlice::with_entries(elem_name, len, None))
    }

    /// A value rendered from its type name alone.
    pub fn fallback(name: &'static str) -> (r: Self)
        ensures
            r == (MaybeDebug::TypeName { name }),
    {
        MaybeDebug::TypeName { name }
    }

    /// Renders the value: its own rendering, the quoted string, the sequence, or its type
    /// name with its fields elided.
    pub fn render(&self) -> (r: String)
        ensures
            r@ == self.rendered(),
    {
        match self {
            MaybeDebug::DynTrait { text, .. } => text.clone(),
            MaybeDebug::TypeName { name } => {
                proof {
                    reveal_strlit(" { .. }");
                }
                let mut out = String::from_str(name);
                out.append(" { .. }");
                out
            },
            MaybeDebug::Slice(s) => s.render(),
            MaybeDebug::Str(s) => quoted(s),
        }
    }
}

} // verus!
