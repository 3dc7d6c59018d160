use vstd::prelude::*;
use crate::text::{char_from_u32, decimal, digit_char, push_char, push_decimal, push_str};

verus! {

/// The number that encodes the oldest supported host version (2.00beta30a).
pub const MINIMUM_AVIUTL2_VERSION_NUMBER: u32 = 2003001;

/// The oldest supported host version.
pub fn minimum_aviutl2_version() -> (r: AviUtl2Version)
    ensures
        r.0 == MINIMUM_AVIUTL2_VERSION_NUMBER,
{
    AviUtl2Version(MINIMUM_AVIUTL2_VERSION_NUMBER)
}

/// Information that the host passes to a plugin when it is loaded.
#[derive(Debug, Clone)]
pub struct AviUtl2Info {
    /// The host version.
    pub version: AviUtl2Version,
}

/// A host version number.
///
/// The decimal digits are read as `MMmmppbb`: major, minor (two digits),
/// patch ("beta" number, two digits) and build (two digits).
#[derive(Debug, Clone, Copy, PartialEq, Eq, PartialOrd, Ord, Hash)]
pub struct AviUtl2Version(pub u32);

/// The major part of a version number.
pub open spec fn spec_major(v: u32) -> int {
    v as int / 1_000_000
}

/// The minor part of a version number.
pub open spec fn spec_minor(v: u32) -> int {
    (v as int / 10_000) % 100
}

/// The patch ("beta") part of a version number.
pub open spec fn spec_patch(v: u32) -> int {
    (v as int / 100) % 100
}

/// The build part of a version number.
pub open spec fn spec_build(v: u32) -> int {
    v as int % 100
}

impl AviUtl2Version {
    /// Builds a version from its parts.
    pub fn new(major: u8, minor: u8, patch: u8, build: u8) -> (v: Self)
        requires
            minor < 100,
            patch < 100,
            build < 100,
        ensures
            v.0 == major as int * 1_000_000 + minor as int * 10_000 + patch as int * 100
                + build as int,
    {
        AviUtl2Version(
            (major as u32) * 1_000_000 + (minor as u32) * 10_000 + (patch as u32) * 100
                + (build as u32),
        )
    }

    /// The major version.
    pub fn major(self) -> (r: u32)
        ensures
            r == spec_major(self.0),
    {
        self.0 / 1000000
    }

    /// The minor version.
    pub fn minor(self) -> (r: u32)
        ensures
            r == spec_minor(self.0),
    {
        (self.0 / 10000) % 100
    }

    /// The patch ("beta") version.
    pub fn patch(self) -> (r: u32)
        ensures
            r == spec_patch(self.0),
    {
        (self.0 / 100) % 100
    }

    /// The build version.
    pub fn build(self) -> (r: u32)
        ensures
            r == spec_build(self.0),
    {
        self.0 % 100
    }
}

/// The build letter: `a` for build 1 up to `z` for build 26, nothing for
/// build 0 or a build past 26.
pub open spec fn build_suffix(build: int) -> Seq<char> {
    if 1 <= build <= 26 {
        seq![(('a' as int) + build - 1) as char]
    } else {
        Seq::empty()
    }
}

/// The text of a version: major, a dot, the minor part as two digits, `beta`,
/// the patch number and the build letter; for example `2.00beta15a`.
pub open spec fn version_text(v: u32) -> Seq<char> {
    decimal(spec_major(v) as nat) + seq!['.', digit_char(spec_minor(v) / 10), digit_char(
        spec_minor(v) % 10,
    ), 'b', 'e', 't', 'a'] + decimal(spec_patch(v) as nat) + build_suffix(spec_build(v))
}

impl AviUtl2Version {
    /// The version as text, for example `2.00beta15a`.
    pub fn to_display_string(&self) -> (r: String)
        ensures
            r@ == version_text(self.0),
    {
        let mut s = String::new();
        push_decimal(&mut s, self.major() as u64);
        push_char(&mut s, '.');
        let minor = self.minor();
        push_decimal(&mut s, (minor / 10) as u64);
        push_decimal(&mut s, (minor % 10) as u64);
        push_char(&mut s, 'b');
        push_char(&mut s, 'e');
        push_char(&mut s, 't');
        push_char(&mut s, 'a');
        push_decimal(&mut s, self.patch() as u64);
        let build = self.build();
        if build >= 1 && build <= 26 {
            match char_from_u32(96 + build) {
                Some(c) => push_char(&mut s, c),
                None => {},
            }
        }
        proof {
            reveal_with_fuel(decimal, 2);
            assert(s@ =~= version_text(self.0));
        }
        s
    }
}

impl From<u32> for AviUtl2Version {
    fn from(value: u32) -> (r: Self) {
        AviUtl2Version(value)
    }
}

impl vstd::std_specs::convert::FromSpecImpl<u32> for AviUtl2Version {
    open spec fn obeys_from_spec() -> bool {
        true
    }

    open spec fn from_spec(v: u32) -> Self {
        AviUtl2Version(v)
    }
}

impl From<AviUtl2Version> for u32 {
    fn from(value: AviUtl2Version) -> (r: Self) {
        value.0
    }
}

impl vstd::std_specs::convert::FromSpecImpl<AviUtl2Version> for u32 {
    open spec fn obeys_from_spec() -> bool {
        true
    }

    open spec fn from_spec(v: AviUtl2Version) -> Self {
        v.0
    }
}

/// The error of [`ensure_minimum_aviutl2_version`]: the host is too old.
#[derive(Debug, Clone)]
pub struct UnsupportedVersionError {
    /// The version of the host.
    pub version: AviUtl2Version,
}

impl UnsupportedVersionError {
    /// The message that explains the error.
    pub fn message(&self) -> (r: String)
        ensures
            r@ == "AviUtl2 version "@ + version_text(self.version.0) + " is not supported. "@
                + version_text(MINIMUM_AVIUTL2_VERSION_NUMBER) + " or higher is required."@,
    {
        let mut s = String::new();
        push_str(&mut s, "AviUtl2 version ");
        let v = self.version.to_display_string();
        push_str(&mut s, v.as_str());
        push_str(&mut s, " is not supported. ");
        let m = minimum_aviutl2_version().to_display_string();
        push_str(&mut s, m.as_str());
        push_str(&mut s, " or higher is required.");
        s
    }
}

/// Succeeds when the host version is at least [`minimum_aviutl2_version`].
pub fn ensure_minimum_aviutl2_version(version: AviUtl2Version) -> (r: Result<
    (),
    UnsupportedVersionError,
>)
    ensures
        r is Ok <==> version.0 >= MINIMUM_AVIUTL2_VERSION_NUMBER,
        r matches Err(e) ==> e.version == version,
{
    if version.0 >= MINIMUM_AVIUTL2_VERSION_NUMBER {
        Ok(())
    } else {
        Err(UnsupportedVersionError { version })
    }
}

/// The effect name that a plugin registers: the base name, followed by
/// ` (Debug)` in a debug build.
pub fn registered_effect_name(base_name: &str, debug_build: bool) -> (r: String)
    ensures
        r@ == (if debug_build {
            base_name@ + " (Debug)"@
        } else {
            base_name@
        }),
{
    let mut s = String::new();
    push_str(&mut s, base_name);
    if debug_build {
        push_str(&mut s, " (Debug)");
    }
    s
}

/// Building a version from parts and reading the parts back gives the parts.
pub proof fn lemma_version_parts_roundtrip(major: u8, minor: u8, patch: u8, build: u8)
    requires
        minor < 100,
        patch < 100,
        build < 100,
    ensures
        ({
            let n = major as int * 1_000_000 + minor as int * 10_000 + patch as int * 100
                + build as int;
            &&& n / 1_000_000 == major as int
            &&& (n / 10_000) % 100 == minor as int
            &&& (n / 100) % 100 == patch as int
            &&& n % 100 == build as int
        }),
{
    let n = major as int * 1_000_000 + minor as int * 10_000 + patch as int * 100 + build as int;
    assert(n / 1_000_000 == major as int) by (nonlinear_arith)
        requires
            n == major as int * 1_000_000 + minor as int * 10_000 + patch as int * 100
                + build as int,
            0 <= minor < 100,
            0 <= patch < 100,
            0 <= build < 100,
    ;
    assert((n / 10_000) % 100 == minor as int) by (nonlinear_arith)
        requires
            n == major as int * 1_000_000 + minor as int * 10_000 + patch as int * 100
                + build as int,
            0 <= major,
            0 <= minor < 100,
            0 <= patch < 100,
            0 <= build < 100,
    ;
    assert((n / 100) % 100 == patch as int) by (nonlinear_arith)
        requires
            n == major as int * 1_000_000 + minor as int * 10_000 + patch as int * 100
                + build as int,
            0 <= major,
            0 <= minor < 100,
            0 <= patch < 100,
            0 <= build < 100,
    ;
    assert(n % 100 == build as int) by (nonlinear_arith)
        requires
            n == major as int * 1_000_000 + minor as int * 10_000 + patch as int * 100
                + build as int,
            0 <= major,
            0 <= minor < 100,
            0 <= patch < 100,
            0 <= build < 100,
    ;
}

} // verus!
