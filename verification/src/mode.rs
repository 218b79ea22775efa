//! The mode: which primitive shape a tick synthesizes, and the names the
//! configuration surface knows the modes by.

use vstd::prelude::*;
use vstd::string::StringSliceAdditionalSpecFns;
use vstd::utf8::encode_utf8_decode_utf8;

verus! {

/// Which primitive shape a tick synthesizes. Changing it affects only the
/// primitives built afterwards.
#[derive(Clone, Copy, PartialEq, Eq, Structural, Debug)]
pub enum Mode {
    Lines,
    Triangles,
    Curves,
}

/// Whether two byte slices hold the same bytes.
fn bytes_eq(a: &[u8], b: &[u8]) -> (r: bool)
    ensures
        r == (a@ == b@),
{
    if a.len() != b.len() {
        proof {
            assert(a@ != b@);
        }
        return false;
    }
    let n = a.len();
    let mut i: usize = 0;
    while i < n
        invariant
            i <= n,
            a@.len() == n,
            b@.len() == n,
            forall|j: int| 0 <= j < i ==> a@[j] == b@[j],
        decreases n - i,
    {
        if a[i] != b[i] {
            proof {
                assert(a@ != b@);
            }
            return false;
        }
        i = i + 1;
    }
    proof {
        assert(a@ =~= b@);
    }
    true
}

/// Whether two strings hold the same characters: their UTF-8 bytes agree
/// exactly when their character sequences do.
fn str_eq(a: &str, b: &str) -> (r: bool)
    ensures
        r == (a@ == b@),
{
    let r = bytes_eq(a.as_bytes(), b.as_bytes());
    proof {
        encode_utf8_decode_utf8(a@);
        encode_utf8_decode_utf8(b@);
    }
    r
}

impl Mode {
    /// The name of the mode, as the configuration surface spells it.
    pub fn name(self) -> (s: &'static str)
        ensures
            self == Mode::Lines ==> s@ == "lines"@,
            self == Mode::Triangles ==> s@ == "triangles"@,
            self == Mode::Curves ==> s@ == "curves"@,
    {
        match self {
            Mode::Lines => "lines",
            Mode::Triangles => "triangles",
            Mode::Curves => "curves",
        }
    }

    /// The mode a name denotes, or nothing for an unknown name.
    pub fn from_name(s: &str) -> (m: Option<Mode>)
        ensures
            m == (if s@ == "lines"@ {
                Some(Mode::Lines)
            } else if s@ == "triangles"@ {
                Some(Mode::Triangles)
            } else if s@ == "curves"@ {
                Some(Mode::Curves)
            } else {
                None::<Mode>
            }),
    {
        if str_eq(s, "lines") {
            Some(Mode::Lines)
        } else if str_eq(s, "triangles") {
            Some(Mode::Triangles)
        } else if str_eq(s, "curves") {
            Some(Mode::Curves)
        } else {
            None
        }
    }
}

} // verus!
