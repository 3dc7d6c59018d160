//! The capability flags of a filter plugin and their host bit encoding.

use vstd::prelude::*;
use crate::text::{join, push_joined_part, push_str};

verus! {

/// The host bit of [`FilterPluginFlags::video`].
pub const FILTER_FLAG_VIDEO: i32 = 1;
/// The host bit of [`FilterPluginFlags::audio`].
pub const FILTER_FLAG_AUDIO: i32 = 2;
/// The host bit of [`FilterPluginFlags::input`].
pub const FILTER_FLAG_INPUT: i32 = 4;
/// The host bit of [`FilterPluginFlags::filter`].
pub const FILTER_FLAG_FILTER: i32 = 8;

/// What a filter plugin supports.
#[derive(Default, Clone, Copy, Debug, PartialEq, Eq, Structural, Hash)]
#[non_exhaustive]
pub struct FilterPluginFlags {
    /// It filters images.
    pub video: bool,
    /// It filters audio.
    pub audio: bool,
    /// It acts as an input: a custom object rather than a filter effect.
    pub input: bool,
    /// It can be used as a filter object.
    pub filter: bool,
}

/// The host bits of a set of flags.
pub open spec fn filter_flag_bits(f: FilterPluginFlags) -> i32 {
    (if f.video { FILTER_FLAG_VIDEO } else { 0i32 }) | (if f.audio { FILTER_FLAG_AUDIO } else {
        0i32
    }) | (if f.input { FILTER_FLAG_INPUT } else { 0i32 }) | (if f.filter {
        FILTER_FLAG_FILTER
    } else {
        0i32
    })
}

/// The flags that a host bit set holds.
pub open spec fn filter_flags_of(bits: i32) -> FilterPluginFlags {
    FilterPluginFlags {
        video: bits & FILTER_FLAG_VIDEO != 0,
        audio: bits & FILTER_FLAG_AUDIO != 0,
        input: bits & FILTER_FLAG_INPUT != 0,
        filter: bits & FILTER_FLAG_FILTER != 0,
    }
}

/// The names of the flags that are set, in declaration order.
pub open spec fn filter_flag_names(f: FilterPluginFlags) -> Seq<Seq<char>> {
    (if f.video { seq!["video"@] } else { Seq::empty() }) + (if f.audio {
        seq!["audio"@]
    } else {
        Seq::empty()
    }) + (if f.input { seq!["input"@] } else { Seq::empty() }) + (if f.filter {
        seq!["filter"@]
    } else {
        Seq::empty()
    })
}

/// The flags that either set holds.
pub open spec fn filter_flags_union(
    a: FilterPluginFlags,
    b: FilterPluginFlags,
) -> FilterPluginFlags {
    FilterPluginFlags {
        video: a.video || b.video,
        audio: a.audio || b.audio,
        input: a.input || b.input,
        filter: a.filter || b.filter,
    }
}

/// The flags that both sets hold.
pub open spec fn filter_flags_intersection(
    a: FilterPluginFlags,
    b: FilterPluginFlags,
) -> FilterPluginFlags {
    FilterPluginFlags {
        video: a.video && b.video,
        audio: a.audio && b.audio,
        input: a.input && b.input,
        filter: a.filter && b.filter,
    }
}

/// The flags that exactly one of the sets holds.
pub open spec fn filter_flags_symmetric_difference(
    a: FilterPluginFlags,
    b: FilterPluginFlags,
) -> FilterPluginFlags {
    FilterPluginFlags {
        video: a.video != b.video,
        audio: a.audio != b.audio,
        input: a.input != b.input,
        filter: a.filter != b.filter,
    }
}

/// The flags that the first set holds and the second does not.
pub open spec fn filter_flags_difference(
    a: FilterPluginFlags,
    b: FilterPluginFlags,
) -> FilterPluginFlags {
    FilterPluginFlags {
        video: a.video && !b.video,
        audio: a.audio && !b.audio,
        input: a.input && !b.input,
        filter: a.filter && !b.filter,
    }
}

/// The flags that a set does not hold.
pub open spec fn filter_flags_complement(a: FilterPluginFlags) -> FilterPluginFlags {
    FilterPluginFlags { video: !a.video, audio: !a.audio, input: !a.input, filter: !a.filter }
}

impl FilterPluginFlags {
    /// The flags that a host bit set holds; other bits are ignored.
    pub fn from_bits(bits: i32) -> (r: Self)
        ensures
            r == filter_flags_of(bits),
    {
        FilterPluginFlags {
            video: bits & FILTER_FLAG_VIDEO != 0,
            audio: bits & FILTER_FLAG_AUDIO != 0,
            input: bits & FILTER_FLAG_INPUT != 0,
            filter: bits & FILTER_FLAG_FILTER != 0,
        }
    }

    /// The host bits of these flags.
    pub fn to_bits(&self) -> (r: i32)
        ensures
            r == filter_flag_bits(*self),
    {
        let video: i32 = if self.video { FILTER_FLAG_VIDEO } else { 0 };
        let audio: i32 = if self.audio { FILTER_FLAG_AUDIO } else { 0 };
        let input: i32 = if self.input { FILTER_FLAG_INPUT } else { 0 };
        let filter: i32 = if self.filter { FILTER_FLAG_FILTER } else { 0 };
        let bits: i32 = video | audio | input | filter;
        bits
    }

    /// The flags as text, such as `FilterPluginFlags(video | audio)`.
    pub fn to_display_string(&self) -> (r: String)
        ensures
            r@ == "FilterPluginFlags("@ + join(filter_flag_names(*self), " | "@) + ")"@,
    {
        let mut s = String::new();
        push_str(&mut s, "FilterPluginFlags(");
        let ghost start = s@;
        let ghost mut names: Seq<Seq<char>> = Seq::empty();
        let mut first = true;
        if self.video {
            push_joined_part(&mut s, Ghost(start), Ghost(names), first, " | ", "video");
            proof {
                names = names.push("video"@);
            }
            first = false;
        }
        if self.audio {
            push_joined_part(&mut s, Ghost(start), Ghost(names), first, " | ", "audio");
            proof {
                names = names.push("audio"@);
            }
            first = false;
        }
        if self.input {
            push_joined_part(&mut s, Ghost(start), Ghost(names), first, " | ", "input");
            proof {
                names = names.push("input"@);
            }
            first = false;
        }
        if self.filter {
            push_joined_part(&mut s, Ghost(start), Ghost(names), first, " | ", "filter");
            proof {
                names = names.push("filter"@);
            }
        }
        assert(names =~= filter_flag_names(*self));
        push_str(&mut s, ")");
        s
    }
}

impl std::ops::BitOr for FilterPluginFlags {
    type Output = Self;

    /// The flags that either set holds.
    fn bitor(self, rhs: Self) -> (r: Self)
        ensures
            r == filter_flags_union(self, rhs),
    {
        FilterPluginFlags {
            video: self.video || rhs.video,
            audio: self.audio || rhs.audio,
            input: self.input || rhs.input,
            filter: self.filter || rhs.filter,
        }
    }
}

impl vstd::std_specs::ops::BitOrSpecImpl for FilterPluginFlags {
    open spec fn obeys_bitor_spec() -> bool {
        true
    }

    open spec fn bitor_req(self, rhs: Self) -> bool {
        true
    }

    open spec fn bitor_spec(self, rhs: Self) -> Self {
        filter_flags_union(self, rhs)
    }
}

impl std::ops::BitAnd for FilterPluginFlags {
    type Output = Self;

    /// The flags that both sets hold.
    fn bitand(self, rhs: Self) -> (r: Self)
        ensures
            r == filter_flags_intersection(self, rhs),
    {
        FilterPluginFlags {
            video: self.video && rhs.video,
            audio: self.audio && rhs.audio,
            input: self.input && rhs.input,
            filter: self.filter && rhs.filter,
        }
    }
}

impl vstd::std_specs::ops::BitAndSpecImpl for FilterPluginFlags {
    open spec fn obeys_bitand_spec() -> bool {
        true
    }

    open spec fn bitand_req(self, rhs: Self) -> bool {
        true
    }

    open spec fn bitand_spec(self, rhs: Self) -> Self {
        filter_flags_intersection(self, rhs)
    }
}

impl std::ops::BitXor for FilterPluginFlags {
    type Output = Self;

    /// The flags that exactly one set holds.
    fn bitxor(self, rhs: Self) -> (r: Self)
        ensures
            r == filter_flags_symmetric_difference(self, rhs),
    {
        FilterPluginFlags {
            video: self.video != rhs.video,
            audio: self.audio != rhs.audio,
            input: self.input != rhs.input,
            filter: self.filter != rhs.filter,
        }
    }
}

impl vstd::std_specs::ops::BitXorSpecImpl for FilterPluginFlags {
    open spec fn obeys_bitxor_spec() -> bool {
        true
    }

    open spec fn bitxor_req(self, rhs: Self) -> bool {
        true
    }

    open spec fn bitxor_spec(self, rhs: Self) -> Self {
        filter_flags_symmetric_difference(self, rhs)
    }
}

impl std::ops::Sub for FilterPluginFlags {
    type Output = Self;

    /// The flags that the first set holds and the second does not.
    fn sub(self, rhs: Self) -> (r: Self)
        ensures
            r == filter_flags_difference(self, rhs),
    {
        FilterPluginFlags {
            video: self.video && !rhs.video,
            audio: self.audio && !rhs.audio,
            input: self.input && !rhs.input,
            filter: self.filter && !rhs.filter,
        }
    }
}

impl vstd::std_specs::ops::SubSpecImpl for FilterPluginFlags {
    open spec fn obeys_sub_spec() -> bool {
        true
    }

    open spec fn sub_req(self, rhs: Self) -> bool {
        true
    }

    open spec fn sub_spec(self, rhs: Self) -> Self {
        filter_flags_difference(self, rhs)
    }
}

impl std::ops::Not for FilterPluginFlags {
    type Output = Self;

    /// The flags that the set does not hold.
    fn not(self) -> (r: Self)
        ensures
            r == filter_flags_complement(self),
    {
        FilterPluginFlags {
            video: !self.video,
            audio: !self.audio,
            input: !self.input,
            filter: !self.filter,
        }
    }
}

impl vstd::std_specs::ops::NotSpecImpl for FilterPluginFlags {
    open spec fn obeys_not_spec() -> bool {
        true
    }

    open spec fn not_req(self) -> bool {
        true
    }

    open spec fn not_spec(self) -> Self {
        filter_flags_complement(self)
    }
}

/// Reading back the bits of a set of flags gives the same flags.
pub proof fn lemma_filter_flags_roundtrip(f: FilterPluginFlags)
    ensures
        filter_flags_of(filter_flag_bits(f)) == f,
{
    let v = f.video;
    let a = f.audio;
    let i = f.input;
    let g = f.filter;
    let b = filter_flag_bits(f);
    assert(b == ((if v { 1i32 } else { 0i32 }) | (if a { 2i32 } else { 0i32 }) | (if i {
        4i32
    } else {
        0i32
    }) | (if g { 8i32 } else { 0i32 })));
    assert((b & 1 != 0) == v && (b & 2 != 0) == a && (b & 4 != 0) == i && (b & 8 != 0) == g)
        by (bit_vector)
        requires
            b == ((if v { 1i32 } else { 0i32 }) | (if a { 2i32 } else { 0i32 }) | (if i {
                4i32
            } else {
                0i32
            }) | (if g { 8i32 } else { 0i32 })),
    ;
}

/// Writing the flags of a bit set back gives the flag bits of the set, and
/// drops every other bit.
pub proof fn lemma_filter_bits_roundtrip(bits: i32)
    ensures
        filter_flag_bits(filter_flags_of(bits)) == bits & 15,
{
    let f = filter_flags_of(bits);
    assert(filter_flag_bits(f) == ((if bits & 1 != 0 { 1i32 } else { 0i32 }) | (if bits & 2 != 0 {
        2i32
    } else {
        0i32
    }) | (if bits & 4 != 0 { 4i32 } else { 0i32 }) | (if bits & 8 != 0 { 8i32 } else { 0i32 })));
    assert(((if bits & 1 != 0 { 1i32 } else { 0i32 }) | (if bits & 2 != 0 { 2i32 } else { 0i32 })
        | (if bits & 4 != 0 { 4i32 } else { 0i32 }) | (if bits & 8 != 0 { 8i32 } else { 0i32 }))
        == bits & 15) by (bit_vector);
}

/// The bits of a union of flag sets are the union of their bits, and the bits
/// of an intersection are the intersection of their bits.
pub proof fn lemma_filter_flags_ops_bits(a: FilterPluginFlags, b: FilterPluginFlags)
    ensures
        filter_flag_bits(filter_flags_union(a, b)) == filter_flag_bits(a) | filter_flag_bits(b),
        filter_flag_bits(filter_flags_intersection(a, b)) == filter_flag_bits(a)
            & filter_flag_bits(b),
        filter_flag_bits(filter_flags_symmetric_difference(a, b)) == filter_flag_bits(a)
            ^ filter_flag_bits(b),
{
    let (av, aa, ai, af) = (a.video, a.audio, a.input, a.filter);
    let (bv, ba, bi, bf) = (b.video, b.audio, b.input, b.filter);
    assert(((if av || bv { 1i32 } else { 0i32 }) | (if aa || ba { 2i32 } else { 0i32 }) | (if ai
        || bi {
        4i32
    } else {
        0i32
    }) | (if af || bf { 8i32 } else { 0i32 })) == (((if av { 1i32 } else { 0i32 }) | (if aa {
        2i32
    } else {
        0i32
    }) | (if ai { 4i32 } else { 0i32 }) | (if af { 8i32 } else { 0i32 })) | ((if bv {
        1i32
    } else {
        0i32
    }) | (if ba { 2i32 } else { 0i32 }) | (if bi { 4i32 } else { 0i32 }) | (if bf {
        8i32
    } else {
        0i32
    })))) by (bit_vector);
    assert(((if av && bv { 1i32 } else { 0i32 }) | (if aa && ba { 2i32 } else { 0i32 }) | (if ai
        && bi {
        4i32
    } else {
        0i32
    }) | (if af && bf { 8i32 } else { 0i32 })) == (((if av { 1i32 } else { 0i32 }) | (if aa {
        2i32
    } else {
        0i32
    }) | (if ai { 4i32 } else { 0i32 }) | (if af { 8i32 } else { 0i32 })) & ((if bv {
        1i32
    } else {
        0i32
    }) | (if ba { 2i32 } else { 0i32 }) | (if bi { 4i32 } else { 0i32 }) | (if bf {
        8i32
    } else {
        0i32
    })))) by (bit_vector);
    assert(((if av != bv { 1i32 } else { 0i32 }) | (if aa != ba { 2i32 } else { 0i32 }) | (if ai
        != bi {
        4i32
    } else {
        0i32
    }) | (if af != bf { 8i32 } else { 0i32 })) == (((if av { 1i32 } else { 0i32 }) | (if aa {
        2i32
    } else {
        0i32
    }) | (if ai { 4i32 } else { 0i32 }) | (if af { 8i32 } else { 0i32 })) ^ ((if bv {
        1i32
    } else {
        0i32
    }) | (if ba { 2i32 } else { 0i32 }) | (if bi { 4i32 } else { 0i32 }) | (if bf {
        8i32
    } else {
        0i32
    })))) by (bit_vector);
}

} // verus!
