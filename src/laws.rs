//! Laws of modality sets, proved over the models that the operations'
//! contracts speak of.
use vstd::prelude::*;

use crate::names::{
    display_text, flag_name, join_names, name_bit, names_of, names_upto, parse_names,
};
use crate::{
    contains_bits, flag_bit, Modality, ALL_BITS, AUDIO_BIT, IMAGE_BIT, NONE_BITS, OTHER_BIT,
    TEXT_BIT, VIDEO_BIT,
};

verus! {

/// Each flag is the power of two at its position in declaration order, so no
/// two flags share a bit; the empty set is zero, and the full set is the union
/// of the five flags.
pub proof fn lemma_flag_bits()
    ensures
        forall|i: int| 0 <= i < 5 ==> #[trigger] flag_bit(i) == 1u32 << (i as u32),
        forall|i: int, j: int|
            0 <= i < 5 && 0 <= j < 5 && i != j ==> #[trigger] flag_bit(i) != #[trigger] flag_bit(j),
        NONE_BITS == 0,
        ALL_BITS == AUDIO_BIT | IMAGE_BIT | TEXT_BIT | VIDEO_BIT | OTHER_BIT,
{
    assert(1u32 == 1u32 << 0u32 && 2u32 == 1u32 << 1u32 && 4u32 == 1u32 << 2u32 && 8u32 == 1u32
        << 3u32 && 16u32 == 1u32 << 4u32) by (bit_vector);
    assert(31u32 == 1u32 | 2u32 | 4u32 | 8u32 | 16u32) by (bit_vector);
}

/// Union and intersection are commutative, associative and idempotent,
/// intersection absorbs a union that holds its operand, and an intersection
/// is contained in each of its operands.
pub proof fn lemma_set_algebra(a: Modality, b: Modality, c: Modality)
    ensures
        a@ | b@ == b@ | a@,
        a@ & b@ == b@ & a@,
        (a@ | b@) | c@ == a@ | (b@ | c@),
        (a@ & b@) & c@ == a@ & (b@ & c@),
        a@ | a@ == a@,
        a@ & a@ == a@,
        a@ & (a@ | b@) == a@,
        contains_bits(a@, a@ & b@),
        contains_bits(b@, a@ & b@),
{
    let (x, y, z) = (a@, b@, c@);
    assert(x | y == y | x && x & y == y & x && (x | y) | z == x | (y | z) && (x & y) & z == x & (y
        & z) && x | x == x && x & x == x && x & (x | y) == x && x & (x & y) == x & y && y & (x & y)
        == x & y) by (bit_vector);
}

/// Every set contains the empty set and itself, and a union contains each of
/// its operands.
pub proof fn lemma_contains(x: Modality, a: Modality, b: Modality)
    ensures
        contains_bits(x@, NONE_BITS),
        contains_bits(x@, x@),
        contains_bits(a@ | b@, a@),
        contains_bits(a@ | b@, b@),
{
    let (s, y, z) = (x@, a@, b@);
    assert(s & 0 == 0 && s & s == s && (y | z) & y == y && (y | z) & z == z) by (bit_vector);
}

/// The empty set has no names, and the full set has all five, in declaration
/// order.
pub proof fn lemma_names_of_none_and_all()
    ensures
        names_of(NONE_BITS) == Seq::<Seq<char>>::empty(),
        names_of(ALL_BITS) == seq![
            "audio"@,
            "image"@,
            "text"@,
            "video"@,
            "other"@,
        ],
{
    assert(0u32 & 1u32 != 1u32 && 0u32 & 2u32 != 2u32 && 0u32 & 4u32 != 4u32 && 0u32 & 8u32 != 8u32
        && 0u32 & 16u32 != 16u32) by (bit_vector);
    assert(31u32 & 1u32 == 1u32 && 31u32 & 2u32 == 2u32 && 31u32 & 4u32 == 4u32 && 31u32 & 8u32
        == 8u32 && 31u32 & 16u32 == 16u32) by (bit_vector);
    reveal_with_fuel(names_upto, 6);
    assert(names_of(ALL_BITS) =~= seq!["audio"@, "image"@, "text"@, "video"@, "other"@]);
}

/// A valid set has no names exactly when it is the empty set.
pub proof fn lemma_names_empty_iff_none(s: Modality)
    requires
        s.wf(),
    ensures
        names_of(s@).len() == 0 <==> s@ == NONE_BITS,
{
    let b = s@;
    reveal_with_fuel(names_upto, 6);
    assert(b <= 31u32 ==> (b == 0u32 <==> (b & 1u32 != 1u32 && b & 2u32 != 2u32 && b & 4u32 != 4u32
        && b & 8u32 != 8u32 && b & 16u32 != 16u32))) by (bit_vector);
}

/// The flags below position `n`.
spec fn low_mask(n: nat) -> u32 {
    if n == 0 {
        0
    } else if n == 1 {
        1
    } else if n == 2 {
        3
    } else if n == 3 {
        7
    } else if n == 4 {
        15
    } else {
        31
    }
}

/// Each flag's name parses to that flag.
proof fn lemma_name_bit_of_flag(i: int)
    requires
        0 <= i < 5,
    ensures
        name_bit(flag_name(i)) == Some(flag_bit(i)),
{
    reveal_strlit("audio");
    reveal_strlit("image");
    reveal_strlit("text");
    reveal_strlit("video");
    reveal_strlit("other");
    assert forall|j: int| 0 <= j < 5 && j != i implies flag_name(j) != flag_name(i) by {
        assert(flag_name(j)[0] != flag_name(i)[0]);
    }
}

/// The names of the first `n` flags of `bits` parse to those flags.
proof fn lemma_parse_names_upto(bits: u32, n: nat)
    requires
        n <= 5,
    ensures
        parse_names(names_upto(bits, n)) == Ok::<u32, Seq<char>>(bits & low_mask(n)),
    decreases n,
{
    if n == 0 {
        assert(bits & 0u32 == 0u32) by (bit_vector);
    } else {
        lemma_parse_names_upto(bits, (n - 1) as nat);
        lemma_name_bit_of_flag(n - 1);
        let before = names_upto(bits, (n - 1) as nat);
        if contains_bits(bits, flag_bit(n - 1)) {
            assert(before.push(flag_name(n - 1)).drop_last() =~= before);
        }
        assert(bits & 1u32 == 1u32 ==> (bits & 0u32) | 1u32 == bits & 1u32) by (bit_vector);
        assert(bits & 1u32 != 1u32 ==> bits & 0u32 == bits & 1u32) by (bit_vector);
        assert(bits & 2u32 == 2u32 ==> (bits & 1u32) | 2u32 == bits & 3u32) by (bit_vector);
        assert(bits & 2u32 != 2u32 ==> bits & 1u32 == bits & 3u32) by (bit_vector);
        assert(bits & 4u32 == 4u32 ==> (bits & 3u32) | 4u32 == bits & 7u32) by (bit_vector);
        assert(bits & 4u32 != 4u32 ==> bits & 3u32 == bits & 7u32) by (bit_vector);
        assert(bits & 8u32 == 8u32 ==> (bits & 7u32) | 8u32 == bits & 15u32) by (bit_vector);
        assert(bits & 8u32 != 8u32 ==> bits & 7u32 == bits & 15u32) by (bit_vector);
        assert(bits & 16u32 == 16u32 ==> (bits & 15u32) | 16u32 == bits & 31u32) by (bit_vector);
        assert(bits & 16u32 != 16u32 ==> bits & 15u32 == bits & 31u32) by (bit_vector);
    }
}

/// Parsing the names of a valid set gives that set back.
pub proof fn lemma_round_trip(s: Modality)
    requires
        s.wf(),
    ensures
        parse_names(names_of(s@)) == Ok::<u32, Seq<char>>(s@),
{
    let b = s@;
    lemma_parse_names_upto(b, 5);
    assert(b <= 31u32 ==> b & 31u32 == b) by (bit_vector);
}

/// Joining a non-empty list of non-empty names gives a non-empty text.
proof fn lemma_join_names_nonempty(names: Seq<Seq<char>>)
    requires
        names.len() > 0,
        forall|i: int| 0 <= i < names.len() ==> #[trigger] names[i].len() > 0,
    ensures
        join_names(names).len() > 0,
    decreases names.len(),
{
    if names.len() > 1 {
        lemma_join_names_nonempty(names.drop_last());
    }
}

/// Each flag's name is non-empty and differs from `"none"` in its first
/// character.
proof fn lemma_flag_name_text(i: int)
    requires
        0 <= i < 5,
    ensures
        flag_name(i).len() > 0,
        flag_name(i) != "none"@,
{
    reveal_strlit("none");
    reveal_strlit("audio");
    reveal_strlit("image");
    reveal_strlit("text");
    reveal_strlit("video");
    reveal_strlit("other");
    assert(flag_name(i)[0] != "none"@[0]);
}

/// Every name of a set is non-empty.
proof fn lemma_names_upto_nonempty(bits: u32, n: nat)
    ensures
        forall|i: int|
            0 <= i < names_upto(bits, n).len() ==> #[trigger] names_upto(bits, n)[i].len() > 0,
    decreases n,
{
    if n > 0 {
        lemma_names_upto_nonempty(bits, (n - 1) as nat);
        let before = names_upto(bits, (n - 1) as nat);
        if n <= 5 {
            lemma_flag_name_text(n - 1);
        } else {
            reveal_strlit("other");
        }
        assert forall|i: int| 0 <= i < names_upto(bits, n).len() implies #[trigger] names_upto(
            bits,
            n,
        )[i].len() > 0 by {
            if i < before.len() {
                assert(names_upto(bits, n)[i] == before[i]);
            }
        }
    }
}

/// The text of any set is non-empty; that of the empty set is `"none"`,
/// which is no flag's name.
pub proof fn lemma_display_text(bits: u32)
    ensures
        display_text(bits).len() > 0,
        display_text(NONE_BITS) == "none"@,
        forall|i: int| 0 <= i < 5 ==> "none"@ != #[trigger] flag_name(i),
{
    reveal_strlit("none");
    lemma_names_of_none_and_all();
    assert forall|i: int| 0 <= i < 5 implies "none"@ != #[trigger] flag_name(i) by {
        lemma_flag_name_text(i);
    }
    let names = names_of(bits);
    if names.len() > 0 {
        lemma_names_upto_nonempty(bits, 5);
        lemma_join_names_nonempty(names);
    }
}

} // verus!
