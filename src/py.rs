//! The value that a scripting-language binding hands out: a raw bitmask with
//! the operator methods of the host language, read through the flag set.
use vstd::prelude::*;

use crate::names::{display_text, names_of, str_views};
use crate::{contains_bits, Modality, ALL_BITS};
use vstd::string::StringExecFns;

verus! {

/// The views of a list of strings.
pub open spec fn string_views(v: Seq<String>) -> Seq<Seq<char>> {
    v.map_values(|s: String| s@)
}

/// A modality set as exposed to a host runtime.
#[derive(Debug, Clone, Copy, PartialEq, Eq, Structural, Hash)]
pub struct PyModality {
    bits: u32,
}

impl View for PyModality {
    type V = u32;

    closed spec fn view(&self) -> u32 {
        self.bits
    }
}

impl PyModality {
    /// The empty set.
    pub fn new() -> (r: PyModality)
        ensures
            r@ == 0,
    {
        PyModality { bits: 0 }
    }

    /// The same flags as `m`.
    pub fn from_modality(m: Modality) -> (r: PyModality)
        ensures
            r@ == m@,
    {
        PyModality { bits: m.bits() }
    }

    /// The underlying integer.
    pub fn bits(&self) -> (r: u32)
        ensures
            r == self@,
    {
        self.bits
    }

    /// The flags present in either operand.
    pub fn __or__(&self, rhs: &PyModality) -> (r: PyModality)
        ensures
            r@ == self@ | rhs@,
    {
        PyModality { bits: self.bits | rhs.bits }
    }

    /// The flags present in both operands.
    pub fn __and__(&self, rhs: &PyModality) -> (r: PyModality)
        ensures
            r@ == self@ & rhs@,
    {
        PyModality { bits: self.bits & rhs.bits }
    }

    /// Every flag of `other` is present in `self`.
    pub fn __contains__(&self, other: &PyModality) -> (r: bool)
        ensures
            r == contains_bits(self@, other@),
    {
        (self.bits & other.bits) == other.bits
    }

    /// The names of the defined flags in this set, in declaration order.
    pub fn names(&self) -> (r: Vec<String>)
        ensures
            string_views(r@) == names_of(self@ & ALL_BITS),
    {
        let flags = Modality::from_bits_truncate(self.bits).to_names();
        let ghost all = str_views(flags@);
        let mut out: Vec<String> = Vec::new();
        let mut i: usize = 0;
        while i < flags.len()
            invariant
                all == str_views(flags@),
                all == names_of(self@ & ALL_BITS),
                i <= flags@.len(),
                string_views(out@) == all.take(i as int),
            decreases flags.len() - i,
        {
            let ghost before = out@;
            assert(all.len() == flags@.len());
            assert(string_views(before).len() == before.len());
            assert(all[i as int] == flags@[i as int]@);
            out.push(String::from_str(flags[i]));
            assert(out@ == before.push(out@.last()));
            assert(string_views(out@).len() == out@.len());
            assert(string_views(out@)[i as int] == out@[i as int]@);
            assert(string_views(before) == all.take(i as int));
            assert forall|j: int| 0 <= j < i + 1 implies #[trigger] string_views(out@)[j] == all.take(
                i + 1,
            )[j] by {
                if j < i {
                    assert(string_views(before)[j] == all.take(i as int)[j]);
                }
            }
            assert(string_views(out@) =~= all.take(i + 1));
            i += 1;
        }
        assert(all.take(i as int) =~= all);
        out
    }

    /// The text of the defined flags in this set: names joined by `" | "`,
    /// or `"none"` when there are none.
    pub fn __str__(&self) -> (r: String)
        ensures
            r@ == display_text(self@ & ALL_BITS),
    {
        Modality::from_bits_truncate(self.bits).display()
    }
}

} // verus!
