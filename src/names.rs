//! Lowercase names of the flags: listing the flags of a set, parsing a set
//! back from names, and rendering a set as text.
use vstd::prelude::*;

use crate::{contains_bits, flag_bit, Modality};
use vstd::string::StringExecFns;

verus! {

/// The name of the `i`-th flag, in declaration order.
pub open spec fn flag_name(i: int) -> Seq<char> {
    if i == 0 {
        "audio"@
    } else if i == 1 {
        "image"@
    } else if i == 2 {
        "text"@
    } else if i == 3 {
        "video"@
    } else {
        "other"@
    }
}

/// The names of the first `n` flags that `bits` contains, in declaration order.
pub open spec fn names_upto(bits: u32, n: nat) -> Seq<Seq<char>>
    decreases n,
{
    if n == 0 {
        Seq::empty()
    } else {
        let before = names_upto(bits, (n - 1) as nat);
        if contains_bits(bits, flag_bit(n - 1)) {
            before.push(flag_name(n - 1))
        } else {
            before
        }
    }
}

/// The names of the flags that `bits` contains, in declaration order.
pub open spec fn names_of(bits: u32) -> Seq<Seq<char>> {
    names_upto(bits, 5)
}

/// The bit of the flag called `name`, if any (case-sensitive).
pub open spec fn name_bit(name: Seq<char>) -> Option<u32> {
    if name == flag_name(0) {
        Some(flag_bit(0))
    } else if name == flag_name(1) {
        Some(flag_bit(1))
    } else if name == flag_name(2) {
        Some(flag_bit(2))
    } else if name == flag_name(3) {
        Some(flag_bit(3))
    } else if name == flag_name(4) {
        Some(flag_bit(4))
    } else {
        None
    }
}

/// The union of the flags named in `names`, or the first name that is not
/// a flag's.
pub open spec fn parse_names(names: Seq<Seq<char>>) -> Result<u32, Seq<char>>
    decreases names.len(),
{
    if names.len() == 0 {
        Ok(0)
    } else {
        match parse_names(names.drop_last()) {
            Err(bad) => Err(bad),
            Ok(bits) => match name_bit(names.last()) {
                Some(flag) => Ok(bits | flag),
                None => Err(names.last()),
            },
        }
    }
}

/// The message of the error for an unknown name.
pub open spec fn error_message(bad: Seq<char>) -> Seq<char> {
    "Invalid modality name: "@ + bad
}

/// The names joined by `" | "`.
pub open spec fn join_names(names: Seq<Seq<char>>) -> Seq<char>
    decreases names.len(),
{
    if names.len() == 0 {
        Seq::empty()
    } else if names.len() == 1 {
        names[0]
    } else {
        join_names(names.drop_last()) + " | "@ + names.last()
    }
}

/// The text of a set: its names joined by `" | "`, or `"none"` for the
/// empty set.
pub open spec fn display_text(bits: u32) -> Seq<char> {
    if names_of(bits).len() == 0 {
        "none"@
    } else {
        join_names(names_of(bits))
    }
}

/// The views of a list of string slices.
pub open spec fn str_views(v: Seq<&str>) -> Seq<Seq<char>> {
    v.map_values(|s: &str| s@)
}

/// The two texts are equal.
fn same_text(a: &str, b: &str) -> (r: bool)
    ensures
        r == (a@ == b@),
{
    String::from_str(a) == String::from_str(b)
}

/// The flag called `name`, if any.
fn flag_of_name(name: &str) -> (r: Option<Modality>)
    ensures
        name_bit(name@) is Some <==> r is Some,
        r is Some ==> r->Some_0@ == name_bit(name@)->Some_0 && r->Some_0.wf(),
{
    if same_text(name, "audio") {
        Some(Modality::audio())
    } else if same_text(name, "image") {
        Some(Modality::image())
    } else if same_text(name, "text") {
        Some(Modality::text())
    } else if same_text(name, "video") {
        Some(Modality::video())
    } else if same_text(name, "other") {
        Some(Modality::other())
    } else {
        None
    }
}

/// A prefix of a list whose parse fails decides the parse of the whole list.
proof fn lemma_parse_failed_prefix(names: Seq<Seq<char>>, k: int)
    requires
        0 <= k <= names.len(),
        parse_names(names.take(k)) is Err,
    ensures
        parse_names(names) == parse_names(names.take(k)),
    decreases names.len() - k,
{
    if k < names.len() {
        assert(names.drop_last().take(k) =~= names.take(k));
        lemma_parse_failed_prefix(names.drop_last(), k);
        assert(names.take(names.len() as int) =~= names);
    } else {
        assert(names.take(k) =~= names);
    }
}

impl Modality {
    /// The names of the flags in this set, in declaration order (audio,
    /// image, text, video, other); empty exactly for the empty set.
    pub fn to_names(self) -> (r: Vec<&'static str>)
        ensures
            str_views(r@) == names_of(self@),
    {
        let mut names: Vec<&'static str> = Vec::new();
        assert(str_views(names@) =~= names_upto(self@, 0));
        if self.contains(Modality::audio()) {
            names.push("audio");
        }
        assert(str_views(names@) =~= names_upto(self@, 1));
        if self.contains(Modality::image()) {
            names.push("image");
        }
        assert(str_views(names@) =~= names_upto(self@, 2));
        if self.contains(Modality::text()) {
            names.push("text");
        }
        assert(str_views(names@) =~= names_upto(self@, 3));
        if self.contains(Modality::video()) {
            names.push("video");
        }
        assert(str_views(names@) =~= names_upto(self@, 4));
        if self.contains(Modality::other()) {
            names.push("other");
        }
        assert(str_views(names@) =~= names_upto(self@, 5));
        names
    }

    /// The union of the flags named in `names` (case-sensitive), or, at the
    /// first name that is no flag's, an error that quotes it.
    pub fn from_names(names: &[&str]) -> (r: Result<Modality, String>)
        ensures
            match parse_names(str_views(names@)) {
                Ok(bits) => r is Ok && r->Ok_0@ == bits && r->Ok_0.wf(),
                Err(bad) => r is Err && r->Err_0@ == error_message(bad),
            },
    {
        let ghost all = str_views(names@);
        let mut acc = Modality::none();
        let mut i: usize = 0;
        assert(all.take(0) =~= Seq::<Seq<char>>::empty());
        while i < names.len()
            invariant
                all == str_views(names@),
                i <= names@.len(),
                acc.wf(),
                parse_names(all.take(i as int)) == Ok::<u32, Seq<char>>(acc@),
            decreases names.len() - i,
        {
            let name = names[i];
            assert(all.take(i + 1).drop_last() =~= all.take(i as int));
            assert(all.take(i + 1).last() == name@);
            match flag_of_name(name) {
                Some(flag) => {
                    acc = acc.union(flag);
                },
                None => {
                    proof {
                        lemma_parse_failed_prefix(all, i + 1);
                    }
                    let mut message = String::from_str("Invalid modality name: ");
                    message.append(name);
                    return Err(message);
                },
            }
            i += 1;
        }
        assert(all.take(i as int) =~= all);
        Ok(acc)
    }

    /// The text of this set: its names in declaration order joined by
    /// `" | "`, or `"none"` for the empty set; never empty.
    pub fn display(self) -> (r: String)
        ensures
            r@ == display_text(self@),
    {
        let names = self.to_names();
        let ghost all = str_views(names@);
        if names.len() == 0 {
            return String::from_str("none");
        }
        let mut out = String::from_str(names[0]);
        let mut i: usize = 1;
        assert(all.take(1).drop_last() =~= Seq::<Seq<char>>::empty());
        while i < names.len()
            invariant
                all == str_views(names@),
                1 <= i <= names@.len(),
                out@ == join_names(all.take(i as int)),
            decreases names.len() - i,
        {
            out.append(" | ");
            out.append(names[i]);
            assert(all.take(i + 1).drop_last() =~= all.take(i as int));
            i += 1;
        }
        assert(all.take(i as int) =~= all);
        out
    }
}

} // verus!
