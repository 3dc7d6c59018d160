//! The flags of an effect that the host lists, and their host bit encoding.

use vstd::prelude::*;
use crate::text::{join, push_joined_part, push_str};

verus! {

/// The host bit of [`EffectFlag::video`].
pub const EFFECT_FLAG_VIDEO: i32 = 1;
/// The host bit of [`EffectFlag::audio`].
pub const EFFECT_FLAG_AUDIO: i32 = 2;
/// The host bit of [`EffectFlag::as_filter`].
pub const EFFECT_FLAG_FILTER: i32 = 4;
/// The host bit of [`EffectFlag::camera`].
pub const EFFECT_FLAG_CAMERA: i32 = 8;

/// What an effect supports.
#[derive(Default, Clone, Copy, Debug, PartialEq, Eq, Structural, Hash)]
#[non_exhaustive]
pub struct EffectFlag {
    /// It works on images.
    pub video: bool,
    /// It works on audio.
    pub audio: bool,
    /// It can be used as a filter object.
    pub as_filter: bool,
    /// It supports camera effects.
    pub camera: bool,
}

/// The host bits of a set of flags.
pub open spec fn effect_flag_bits(f: EffectFlag) -> i32 {
    (if f.video { EFFECT_FLAG_VIDEO } else { 0i32 }) | (if f.audio { EFFECT_FLAG_AUDIO } else {
        0i32
    }) | (if f.as_filter { EFFECT_FLAG_FILTER } else { 0i32 }) | (if f.camera {
        EFFECT_FLAG_CAMERA
    } else {
        0i32
    })
}

/// The flags that a host bit set holds.
pub open spec fn effect_flags_of(bits: i32) -> EffectFlag {
    EffectFlag {
        video: bits & EFFECT_FLAG_VIDEO != 0,
        audio: bits & EFFECT_FLAG_AUDIO != 0,
        as_filter: bits & EFFECT_FLAG_FILTER != 0,
        camera: bits & EFFECT_FLAG_CAMERA != 0,
    }
}

/// The names of the flags that are set, in declaration order.
pub open spec fn effect_flag_names(f: EffectFlag) -> Seq<Seq<char>> {
    (if f.video { seq!["video"@] } else { Seq::empty() }) + (if f.audio {
        seq!["audio"@]
    } else {
        Seq::empty()
    }) + (if f.as_filter { seq!["as_filter"@] } else { Seq::empty() }) + (if f.camera {
        seq!["camera"@]
    } else {
        Seq::empty()
    })
}

/// The flags that either set holds.
pub open spec fn effect_flags_union(
    a: EffectFlag,
    b: EffectFlag,
) -> EffectFlag {
    EffectFlag {
        video: a.video || b.video,
        audio: a.audio || b.audio,
        as_filter: a.as_filter || b.as_filter,
        camera: a.camera || b.camera,
    }
}

/// The flags that both sets hold.
pub open spec fn effect_flags_intersection(
    a: EffectFlag,
    b: EffectFlag,
) -> EffectFlag {
    EffectFlag {
        video: a.video && b.video,
        audio: a.audio && b.audio,
        as_filter: a.as_filter && b.as_filter,
        camera: a.camera && b.camera,
    }
}

/// The flags that exactly one of the sets holds.
pub open spec fn effect_flags_symmetric_difference(
    a: EffectFlag,
    b: EffectFlag,
) -> EffectFlag {
    EffectFlag {
        video: a.video != b.video,
        audio: a.audio != b.audio,
        as_filter: a.as_filter != b.as_filter,
        camera: a.camera != b.camera,
    }
}

/// The flags that the first set holds and the second does not.
pub open spec fn effect_flags_difference(
    a: EffectFlag,
    b: EffectFlag,
) -> EffectFlag {
    EffectFlag {
        video: a.video && !b.video,
        audio: a.audio && !b.audio,
        as_filter: a.as_filter && !b.as_filter,
        camera: a.camera && !b.camera,
    }
}

/// The flags that a set does not hold.
pub open spec fn effect_flags_complement(a: EffectFlag) -> EffectFlag {
    EffectFlag { video: !a.video, audio: !a.audio, as_filter: !a.as_filter, camera: !a.camera }
}

impl EffectFlag {
    /// The flags that a host bit set holds; other bits are ignored.
    pub fn from_bits(bits: i32) -> (r: Self)
        ensures
            r == effect_flags_of(bits),
    {
        EffectFlag {
            video: bits & EFFECT_FLAG_VIDEO != 0,
            audio: bits & EFFECT_FLAG_AUDIO != 0,
            as_filter: bits & EFFECT_FLAG_FILTER != 0,
            camera: bits & EFFECT_FLAG_CAMERA != 0,
        }
    }

    /// The host bits of these flags.
    pub fn to_bits(&self) -> (r: i32)
        ensures
            r == effect_flag_bits(*self),
    {
        let video: i32 = if self.video { EFFECT_FLAG_VIDEO } else { 0 };
        let audio: i32 = if self.audio { EFFECT_FLAG_AUDIO } else { 0 };
        let as_filter: i32 = if self.as_filter { EFFECT_FLAG_FILTER } else { 0 };
        let camera: i32 = if self.camera { EFFECT_FLAG_CAMERA } else { 0 };
        let bits: i32 = video | audio | as_filter | camera;
        bits
    }

    /// The flags as text, such as `EffectFlag(video | audio)`.
    pub fn to_display_string(&self) -> (r: String)
        ensures
            r@ == "EffectFlag("@ + join(effect_flag_names(*self), " | "@) + ")"@,
    {
        let mut s = String::new();
        push_str(&mut s, "EffectFlag(");
        let ghost start = s@;
        let ghost mut names: Seq<Seq<char>> = Seq::empty();
        let mut first = true;
        if self.video {
            push_joined_part(&mut s, Ghost(start), Ghost(names), first, " | ", "video");
            proof {
                names = names.push("video"@);
            }
            first = false;
        }
        if self.audio {
            push_joined_part(&mut s, Ghost(start), Ghost(names), first, " | ", "audio");
            proof {
                names = names.push("audio"@);
            }
            first = false;
        }
        if self.as_filter {
            push_joined_part(&mut s, Ghost(start), Ghost(names), first, " | ", "as_filter");
            proof {
                names = names.push("as_filter"@);
            }
            first = false;
        }
        if self.camera {
            push_joined_part(&mut s, Ghost(start), Ghost(names), first, " | ", "camera");
            proof {
                names = names.push("camera"@);
            }
        }
        assert(names =~= effect_flag_names(*self));
        push_str(&mut s, ")");
        s
    }
}

impl std::ops::BitOr for EffectFlag {
    type Output = Self;

    /// The flags that either set holds.
    fn bitor(self, rhs: Self) -> (r: Self)
        ensures
            r == effect_flags_union(self, rhs),
    {
        EffectFlag {
            video: self.video || rhs.video,
            audio: self.audio || rhs.audio,
            as_filter: self.as_filter || rhs.as_filter,
            camera: self.camera || rhs.camera,
        }
    }
}

impl vstd::std_specs::ops::BitOrSpecImpl for EffectFlag {
    open spec fn obeys_bitor_spec() -> bool {
        true
    }

    open spec fn bitor_req(self, rhs: Self) -> bool {
        true
    }

    open spec fn bitor_spec(self, rhs: Self) -> Self {
        effect_flags_union(self, rhs)
    }
}

impl std::ops::BitAnd for EffectFlag {
    type Output = Self;

    /// The flags that both sets hold.
    fn bitand(self, rhs: Self) -> (r: Self)
        ensures
            r == effect_flags_intersection(self, rhs),
    {
        EffectFlag {
            video: self.video && rhs.video,
            audio: self.audio && rhs.audio,
            as_filter: self.as_filter && rhs.as_filter,
            camera: self.camera && rhs.camera,
        }
    }
}

impl vstd::std_specs::ops::BitAndSpecImpl for EffectFlag {
    open spec fn obeys_bitand_spec() -> bool {
        true
    }

    open spec fn bitand_req(self, rhs: Self) -> bool {
        true
    }

    open spec fn bitand_spec(self, rhs: Self) -> Self {
        effect_flags_intersection(self, rhs)
    }
}

impl std::ops::BitXor for EffectFlag {
    type Output = Self;

    /// The flags that exactly one set holds.
    fn bitxor(self, rhs: Self) -> (r: Self)
        ensures
            r == effect_flags_symmetric_difference(self, rhs),
    {
        EffectFlag {
            video: self.video != rhs.video,
            audio: self.audio != rhs.audio,
            as_filter: self.as_filter != rhs.as_filter,
            camera: self.camera != rhs.camera,
        }
    }
}

impl vstd::std_specs::ops::BitXorSpecImpl for EffectFlag {
    open spec fn obeys_bitxor_spec() -> bool {
        true
    }

    open spec fn bitxor_req(self, rhs: Self) -> bool {
        true
    }

    open spec fn bitxor_spec(self, rhs: Self) -> Self {
        effect_flags_symmetric_difference(self, rhs)
    }
}

impl std::ops::Sub for EffectFlag {
    type Output = Self;

    /// The flags that the first set holds and the second does not.
    fn sub(self, rhs: Self) -> (r: Self)
        ensures
            r == effect_flags_difference(self, rhs),
    {
        EffectFlag {
            video: self.video && !rhs.video,
            audio: self.audio && !rhs.audio,
            as_filter: self.as_filter && !rhs.as_filter,
            camera: self.camera && !rhs.camera,
        }
    }
}

impl vstd::std_specs::ops::SubSpecImpl for EffectFlag {
    open spec fn obeys_sub_spec() -> bool {
        true
    }

    open spec fn sub_req(self, rhs: Self) -> bool {
        true
    }

    open spec fn sub_spec(self, rhs: Self) -> Self {
        effect_flags_difference(self, rhs)
    }
}

impl std::ops::Not for EffectFlag {
    type Output = Self;

    /// The flags that the set does not hold.
    fn not(self) -> (r: Self)
        ensures
            r == effect_flags_complement(self),
    {
        EffectFlag {
            video: !self.video,
            audio: !self.audio,
            as_filter: !self.as_filter,
            camera: !self.camera,
        }
    }
}

impl vstd::std_specs::ops::NotSpecImpl for EffectFlag {
    open spec fn obeys_not_spec() -> bool {
        true
    }

    open spec fn not_req(self) -> bool {
        true
    }

    open spec fn not_spec(self) -> Self {
        effect_flags_complement(self)
    }
}

/// Reading back the bits of a set of flags gives the same flags.
pub proof fn lemma_effect_flags_roundtrip(f: EffectFlag)
    ensures
        effect_flags_of(effect_flag_bits(f)) == f,
{
    let v = f.video;
    let a = f.audio;
    let i = f.as_filter;
    let g = f.camera;
    let b = effect_flag_bits(f);
    assert(b == ((if v { 1i32 } else { 0i32 }) | (if a { 2i32 } else { 0i32 }) | (if i {
        4i32
    } else {
        0i32
    }) | (if g { 8i32 } else { 0i32 })));
    assert((b & 1 != 0) == v && (b & 2 != 0) == a && (b & 4 != 0) == i && (b & 8 != 0) == g)
        by (bit_vector)
        requires
            b == ((if v { 1i32 } else { 0i32 }) | (if a { 2i32 } else { 0i32 }) | (if i {
                4i32
            } else {
                0i32
            }) | (if g { 8i32 } else { 0i32 })),
    ;
}

/// Writing the flags of a bit set back gives the flag bits of the set, and
/// drops every other bit.
pub proof fn lemma_effect_bits_roundtrip(bits: i32)
    ensures
        effect_flag_bits(effect_flags_of(bits)) == bits & 15,
{
    let f = effect_flags_of(bits);
    assert(effect_flag_bits(f) == ((if bits & 1 != 0 { 1i32 } else { 0i32 }) | (if bits & 2 != 0 {
        2i32
    } else {
        0i32
    }) | (if bits & 4 != 0 { 4i32 } else { 0i32 }) | (if bits & 8 != 0 { 8i32 } else { 0i32 })));
    assert(((if bits & 1 != 0 { 1i32 } else { 0i32 }) | (if bits & 2 != 0 { 2i32 } else { 0i32 })
        | (if bits & 4 != 0 { 4i32 } else { 0i32 }) | (if bits & 8 != 0 { 8i32 } else { 0i32 }))
        == bits & 15) by (bit_vector);
}

/// The bits of a union of flag sets are the union of their bits, and the bits
/// of an intersection are the intersection of their bits.
pub proof fn lemma_effect_flags_ops_bits(a: EffectFlag, b: EffectFlag)
    ensures
        effect_flag_bits(effect_flags_union(a, b)) == effect_flag_bits(a) | effect_flag_bits(b),
        effect_flag_bits(effect_flags_intersection(a, b)) == effect_flag_bits(a)
            & effect_flag_bits(b),
        effect_flag_bits(effect_flags_symmetric_difference(a, b)) == effect_flag_bits(a)
            ^ effect_flag_bits(b),
{
    let (av, aa, ai, af) = (a.video, a.audio, a.as_filter, a.camera);
    let (bv, ba, bi, bf) = (b.video, b.audio, b.as_filter, b.camera);
    assert(((if av || bv { 1i32 } else { 0i32 }) | (if aa || ba { 2i32 } else { 0i32 }) | (if ai
        || bi {
        4i32
    } else {
        0i32
    }) | (if af || bf { 8i32 } else { 0i32 })) == (((if av { 1i32 } else { 0i32 }) | (if aa {
        2i32
    } else {
        0i32
    }) | (if ai { 4i32 } else { 0i32 }) | (if af { 8i32 } else { 0i32 })) | ((if bv {
        1i32
    } else {
        0i32
    }) | (if ba { 2i32 } else { 0i32 }) | (if bi { 4i32 } else { 0i32 }) | (if bf {
        8i32
    } else {
        0i32
    })))) by (bit_vector);
    assert(((if av && bv { 1i32 } else { 0i32 }) | (if aa && ba { 2i32 } else { 0i32 }) | (if ai
        && bi {
        4i32
    } else {
        0i32
    }) | (if af && bf { 8i32 } else { 0i32 })) == (((if av { 1i32 } else { 0i32 }) | (if aa {
        2i32
    } else {
        0i32
    }) | (if ai { 4i32 } else { 0i32 }) | (if af { 8i32 } else { 0i32 })) & ((if bv {
        1i32
    } else {
        0i32
    }) | (if ba { 2i32 } else { 0i32 }) | (if bi { 4i32 } else { 0i32 }) | (if bf {
        8i32
    } else {
        0i32
    })))) by (bit_vector);
    assert(((if av != bv { 1i32 } else { 0i32 }) | (if aa != ba { 2i32 } else { 0i32 }) | (if ai
        != bi {
        4i32
    } else {
        0i32
    }) | (if af != bf { 8i32 } else { 0i32 })) == (((if av { 1i32 } else { 0i32 }) | (if aa {
        2i32
    } else {
        0i32
    }) | (if ai { 4i32 } else { 0i32 }) | (if af { 8i32 } else { 0i32 })) ^ ((if bv {
        1i32
    } else {
        0i32
    }) | (if ba { 2i32 } else { 0i32 }) | (if bi { 4i32 } else { 0i32 }) | (if bf {
        8i32
    } else {
        0i32
    })))) by (bit_vector);
}

} // verus!
