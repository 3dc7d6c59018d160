//! NUL-terminated UTF-16 strings, as the host's wide-string parameters expect.

use vstd::prelude::*;
use crate::text::{
    decode_utf16_lossy, encode_utf16, lemma_utf16_encode_first, lemma_utf16_of_char_zero,
    lemma_utf16_roundtrip, utf16_decode_lossy, utf16_encode, utf16_of_char,
};

verus! {

/// An owned, NUL-terminated UTF-16 string without interior NUL units.
#[derive(Debug, PartialEq, Eq)]
pub struct CWString(Vec<u16>);

impl Clone for CWString {
    fn clone(&self) -> (r: Self)
        ensures
            r@ == self@,
    {
        proof {
            use_type_invariant(self);
        }
        let n = self.0.len();
        let mut v: Vec<u16> = Vec::new();
        let mut i: usize = 0;
        while i < n
            invariant
                n == self.0@.len(),
                i <= n,
                v@ == self.0@.take(i as int),
            decreases n - i,
        {
            v.push(self.0[i]);
            i = i + 1;
            assert(v@ =~= self.0@.take(i as int));
        }
        assert(v@ =~= self.0@);
        CWString(v)
    }
}

impl CWString {
    /// The units end with the one NUL that terminates them.
    #[verifier::type_invariant]
    spec fn terminated(&self) -> bool {
        &&& self.0@.len() > 0
        &&& self.0@.last() == 0u16
        &&& !self.0@.drop_last().contains(0u16)
    }
}

impl View for CWString {
    type V = Seq<u16>;

    /// The code units, the terminating NUL included.
    closed spec fn view(&self) -> Seq<u16> {
        self.0@
    }
}

/// The error of building a [`CWString`] from text that holds a NUL.
#[derive(Debug)]
pub struct NullByteError {
    position: usize,
    u16_seq: Vec<u16>,
}

impl NullByteError {
    /// The index of the first NUL code unit.
    pub closed spec fn spec_position(&self) -> usize {
        self.position
    }

    /// The code units of the rejected text.
    pub closed spec fn spec_units(&self) -> Seq<u16> {
        self.u16_seq@
    }

    /// The index of the first NUL code unit.
    pub fn nul_position(&self) -> (r: usize)
        ensures
            r == self.spec_position(),
    {
        self.position
    }

    /// The message that explains the error.
    pub fn message(&self) -> (r: String)
        ensures
            r@ == "String contains null byte"@,
    {
        let mut s = String::new();
        crate::text::push_str(&mut s, "String contains null byte");
        s
    }

    /// The code units of the rejected text.
    pub fn into_vec(self) -> (r: Vec<u16>)
        ensures
            r@ == self.spec_units(),
    {
        self.u16_seq
    }
}

/// `pos` is the index of the first zero in `s`.
pub open spec fn is_first_zero(s: Seq<u16>, pos: int) -> bool {
    &&& 0 <= pos < s.len()
    &&& s[pos] == 0
    &&& forall|k: int| 0 <= k < pos ==> s[k] != 0
}

/// `e` is the error that making a wide string of `text` gives: it holds the
/// text's UTF-16 units and the index of their first zero.
pub open spec fn is_nul_error_for(e: NullByteError, text: Seq<char>) -> bool {
    &&& e.spec_units() == utf16_encode(text)
    &&& is_first_zero(e.spec_units(), e.spec_position() as int)
}

/// The index of the first zero, if any.
fn find_zero(s: &Vec<u16>) -> (r: Option<usize>)
    ensures
        match r {
            Some(p) => is_first_zero(s@, p as int),
            None => !s@.contains(0u16),
        },
{
    let n = s.len();
    let mut i: usize = 0;
    while i < n
        invariant
            n == s@.len(),
            i <= n,
            forall|k: int| 0 <= k < i ==> s@[k] != 0,
        decreases n - i,
    {
        if s[i] == 0 {
            return Some(i);
        }
        i = i + 1;
    }
    proof {
        if s@.contains(0u16) {
            let k = choose|k: int| 0 <= k < s@.len() && s@[k] == 0u16;
            assert(s@[k] != 0);
        }
    }
    None
}

impl CWString {
    /// Encodes `string` as UTF-16 and appends the terminating NUL.
    ///
    /// Fails with the position of the first NUL code unit when the text
    /// holds one.
    pub fn new(string: &str) -> (r: Result<Self, NullByteError>)
        ensures
            match r {
                Ok(w) => {
                    &&& !utf16_encode(string@).contains(0u16)
                    &&& w@ == utf16_encode(string@).push(0u16)
                },
                Err(e) => {
                    &&& e.spec_units() == utf16_encode(string@)
                    &&& is_first_zero(e.spec_units(), e.spec_position() as int)
                },
            },
    {
        let mut wide = encode_utf16(string);
        match find_zero(&wide) {
            Some(pos) => Err(NullByteError { position: pos, u16_seq: wide }),
            None => {
                let ghost body = wide@;
                wide.push(0);
                assert(wide@.drop_last() =~= body);
                Ok(CWString(wide))
            },
        }
    }

    /// The code units, the terminating NUL included: a NUL ends them, and
    /// there is no other.
    pub fn as_slice(&self) -> (r: &[u16])
        ensures
            r@ == self@,
            r@.len() > 0,
            r@.last() == 0u16,
            !r@.drop_last().contains(0u16),
    {
        proof {
            use_type_invariant(self);
        }
        self.0.as_slice()
    }

    /// The text, decoded without the terminating NUL.
    pub fn to_string_lossy(&self) -> (r: String)
        ensures
            r@ == utf16_decode_lossy(self@.drop_last()),
    {
        proof {
            use_type_invariant(self);
        }
        let n = self.0.len();
        let mut body: Vec<u16> = Vec::new();
        let mut i: usize = 0;
        while i + 1 < n
            invariant
                n == self@.len(),
                n > 0,
                i + 1 <= n,
                body@ == self@.subrange(0, i as int),
            decreases n - i,
        {
            body.push(self.0[i]);
            i = i + 1;
            assert(body@ =~= self@.subrange(0, i as int));
        }
        assert(body@ =~= self@.drop_last());
        decode_utf16_lossy(body.as_slice())
    }
}

/// A text is refused as a wide string exactly when it holds the NUL
/// character: its UTF-16 encoding holds a zero code unit just then.
pub proof fn lemma_wide_string_refuses_exactly_nul(s: Seq<char>)
    ensures
        utf16_encode(s).contains(0u16) <==> s.contains('\0'),
    decreases s.len(),
{
    if s.len() == 0 {
        assert(!utf16_encode(s).contains(0u16));
    } else {
        let rest = s.drop_first();
        lemma_utf16_encode_first(s);
        lemma_utf16_of_char_zero(s[0]);
        lemma_wide_string_refuses_exactly_nul(rest);
        let head = utf16_of_char(s[0]);
        let e = utf16_encode(s);
        assert(e == head + utf16_encode(rest));
        if e.contains(0u16) {
            let k = choose|k: int| 0 <= k < e.len() && e[k] == 0u16;
            if k < head.len() {
                assert(head[k] == 0u16);
                assert(s[0] as int == 0);
                assert(s[0] == '\0');
                assert(s.contains('\0'));
            } else {
                assert(utf16_encode(rest)[k - head.len()] == 0u16);
                assert(utf16_encode(rest).contains(0u16));
                let j = choose|j: int| 0 <= j < rest.len() && rest[j] == '\0';
                assert(s[j + 1] == '\0');
            }
        }
        if s.contains('\0') {
            let j = choose|j: int| 0 <= j < s.len() && s[j] == '\0';
            if j == 0 {
                let k = choose|k: int| 0 <= k < head.len() && head[k] == 0u16;
                assert(e[k] == 0u16);
            } else {
                assert(rest[j - 1] == '\0');
                let k = choose|k: int|
                    0 <= k < utf16_encode(rest).len() && utf16_encode(rest)[k] == 0u16;
                assert(e[head.len() + k] == 0u16);
            }
        }
    }
}

/// What a wide string made of a text gives back as text is the text itself:
/// the units before the terminating NUL decode to it.
pub proof fn lemma_wide_string_text_roundtrip(s: Seq<char>)
    ensures
        utf16_decode_lossy(utf16_encode(s).push(0u16).drop_last()) == s,
{
    assert(utf16_encode(s).push(0u16).drop_last() =~= utf16_encode(s));
    lemma_utf16_roundtrip(s);
}

} // verus!
