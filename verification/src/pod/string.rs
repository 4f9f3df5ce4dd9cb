//! NUL-terminated strings.

use vstd::prelude::*;
use vstd::string::StringSliceAdditionalSpecFns;
use vstd::utf8::{
    is_char_boundary_iff_not_is_continuation_byte, valid_utf8, valid_utf8_concat, valid_utf8_split,
};

use crate::mem::AsBytes;
use crate::pod::error::{PodError, MAX_SIZE};

verus! {

/// `p` is the position of the first NUL in `b`.
pub open spec fn spec_is_first_nul(b: Seq<u8>, p: int) -> bool {
    &&& 0 <= p < b.len()
    &&& b[p] == 0
    &&& forall|j: int| 0 <= j < p ==> b[j] != 0
}

/// `b` holds a NUL somewhere.
pub open spec fn spec_has_nul(b: Seq<u8>) -> bool {
    exists|i: int| 0 <= i < b.len() && b[i] == 0
}

/// `b` is the content of a C string: it ends in a NUL, and holds no other.
pub open spec fn spec_is_c_string(b: Seq<u8>) -> bool {
    &&& b.len() >= 1
    &&& spec_is_first_nul(b, b.len() - 1)
}

/// A buffer has at most one first NUL, so the position that a search reports
/// is determined by the buffer; and where it has one, it has a NUL.
pub proof fn lemma_first_nul_unique(b: Seq<u8>, p: int, q: int)
    ensures
        spec_is_first_nul(b, p) && spec_is_first_nul(b, q) ==> p == q,
        spec_is_first_nul(b, p) ==> spec_has_nul(b),
{
    if spec_is_first_nul(b, p) && spec_is_first_nul(b, q) {
        if p < q {
            assert(b[p] != 0);
        } else if q < p {
            assert(b[q] != 0);
        }
    }
}

/// A C string is valid UTF-8 exactly when its bytes without the NUL are: the
/// NUL is a character of its own, and those bytes hold no NUL.
pub proof fn lemma_c_string_utf8(b: Seq<u8>)
    requires
        spec_is_c_string(b),
    ensures
        valid_utf8(b) <==> valid_utf8(b.drop_last()),
        b == b.drop_last() + seq![0u8],
        !spec_has_nul(b.drop_last()),
{
    let body = b.drop_last();
    let nul = seq![0u8];
    assert(b =~= body + nul);
    reveal_with_fuel(valid_utf8, 2);
    assert(nul.subrange(1, 1) =~= Seq::<u8>::empty());
    assert(valid_utf8(nul));
    if valid_utf8(body) {
        valid_utf8_concat(body, nul);
    }
    if valid_utf8(b) {
        is_char_boundary_iff_not_is_continuation_byte(b, b.len() - 1);
        valid_utf8_split(b, b.len() - 1);
        assert(b.subrange(0, b.len() - 1) =~= body);
    }
    if spec_has_nul(body) {
        let i = choose|i: int| 0 <= i < body.len() && body[i] == 0;
        assert(b[i] == 0);
    }
}

/// The "modes" of searching for a NUL terminator.
#[derive(Debug, Clone, Copy, PartialEq, Eq, Structural, PartialOrd, Ord, Hash, Default)]
pub enum NulSearch {
    /// The default mode: the NUL terminator must be the last byte of the
    /// buffer. This corresponds to `CStr::from_bytes_with_nul`.
    #[default]
    WithNul,
    /// The less restrictive mode: the first NUL found is the terminator. This
    /// corresponds to `CStr::from_bytes_until_nul`.
    UntilNul,
}

impl NulSearch {
    /// Searches for the position of the NUL terminator according to the search
    /// method specified by `self`.
    ///
    /// A buffer without a NUL gives [`PodError::NotNulTerminated`]. Otherwise,
    /// in [`NulSearch::UntilNul`] mode, the position of the first NUL is
    /// returned; in [`NulSearch::WithNul`] mode, it is returned if it is the
    /// last byte, and [`PodError::InteriorNul`] with that position otherwise.
    pub fn search(self, bytes: &[u8]) -> (r: Result<usize, PodError>)
        ensures
            !spec_has_nul(bytes@) ==> r == Err::<usize, PodError>(PodError::NotNulTerminated),
            spec_has_nul(bytes@) ==> match self {
                NulSearch::UntilNul => r matches Ok(p) && spec_is_first_nul(bytes@, p as int),
                NulSearch::WithNul => {
                    ||| r matches Ok(p) && spec_is_first_nul(bytes@, p as int) && p == bytes@.len()
                        - 1
                    ||| r matches Err(PodError::InteriorNul { position }) && spec_is_first_nul(
                        bytes@,
                        position as int,
                    ) && position + 1 < bytes@.len()
                },
            },
    {
        self.search_inner(bytes)
    }

    /// Searches for the position of the NUL terminator according to the search
    /// method specified by `self`; the mutable variant of
    /// [`NulSearch::search`]. The buffer is left as it was.
    pub fn search_mut(self, bytes: &mut [u8]) -> (r: Result<usize, PodError>)
        ensures
            final(bytes)@ == old(bytes)@,
            !spec_has_nul(old(bytes)@) ==> r == Err::<usize, PodError>(PodError::NotNulTerminated),
            spec_has_nul(old(bytes)@) ==> match self {
                NulSearch::UntilNul => r matches Ok(p) && spec_is_first_nul(old(bytes)@, p as int),
                NulSearch::WithNul => {
                    ||| r matches Ok(p) && spec_is_first_nul(old(bytes)@, p as int) && p == old(
                        bytes,
                    )@.len() - 1
                    ||| r matches Err(PodError::InteriorNul { position }) && spec_is_first_nul(
                        old(bytes)@,
                        position as int,
                    ) && position + 1 < old(bytes)@.len()
                },
            },
    {
        self.search(bytes)
    }

    /// Returns the position of the NUL terminator, if there is one.
    fn search_inner(self, bytes: &[u8]) -> (r: Result<usize, PodError>)
        ensures
            !spec_has_nul(bytes@) ==> r == Err::<usize, PodError>(PodError::NotNulTerminated),
            spec_has_nul(bytes@) ==> match self {
                NulSearch::UntilNul => r matches Ok(p) && spec_is_first_nul(bytes@, p as int),
                NulSearch::WithNul => {
                    ||| r matches Ok(p) && spec_is_first_nul(bytes@, p as int) && p == bytes@.len()
                        - 1
                    ||| r matches Err(PodError::InteriorNul { position }) && spec_is_first_nul(
                        bytes@,
                        position as int,
                    ) && position + 1 < bytes@.len()
                },
            },
    {
        let n = bytes.len();
        let mut i: usize = 0;
        while i < n
            invariant
                n == bytes@.len(),
                i <= n,
                forall|j: int| 0 <= j < i ==> bytes@[j] != 0,
            decreases n - i,
        {
            if bytes[i] == 0 {
                proof {
                    assert(spec_has_nul(bytes@));
                }
                return match self {
                    NulSearch::UntilNul => Ok(i),
                    NulSearch::WithNul => {
                        if i == n - 1 {
                            Ok(i)
                        } else {
                            Err(PodError::InteriorNul { position: i })
                        }
                    },
                };
            }
            i = i + 1;
        }
        Err(PodError::NotNulTerminated)
    }
}

/// The error of `std::str::from_utf8`, declared so that it can be handed on.
#[verifier::external_type_specification]
#[verifier::external_body]
pub struct ExUtf8Error(core::str::Utf8Error);

/// Calls `std::str::from_utf8`, which, as its documentation says, returns the
/// string whose bytes are `v` when `v` is valid UTF-8, and an error otherwise.
#[verifier::external_body]
fn str_from_utf8(v: &[u8]) -> (r: Result<&str, core::str::Utf8Error>)
    ensures
        r is Ok <==> valid_utf8(v@),
        r matches Ok(s) ==> s.spec_bytes() == v@,
{
    core::str::from_utf8(v)
}

/// A NUL-terminated string that can be serialized as or deserialized from a
/// SPA POD.
///
/// It has no guarantee of encoding besides its size in bytes, NUL included,
/// not exceeding [`MAX_SIZE`], and its holding no interior NUL.
pub struct SpaStr {
    bytes: Vec<u8>,
}

impl View for SpaStr {
    type V = Seq<u8>;

    /// The bytes of the string, NUL terminator included.
    closed spec fn view(&self) -> Seq<u8> {
        self.bytes@
    }
}

impl SpaStr {
    /// The bytes end in the only NUL, and there are at most [`MAX_SIZE`].
    #[verifier::type_invariant]
    closed spec fn wf(&self) -> bool {
        &&& spec_is_c_string(self.bytes@)
        &&& self.bytes@.len() <= MAX_SIZE
    }

    /// Attempt to create a [`SpaStr`] from the bytes of a C string, NUL
    /// terminator included.
    ///
    /// Returns [`PodError::InvalidSize`] if there are more than [`MAX_SIZE`]
    /// bytes.
    pub fn from_c_str(c_str: &[u8]) -> (r: Result<SpaStr, PodError>)
        requires
            spec_is_c_string(c_str@),
        ensures
            r is Ok <==> c_str@.len() <= MAX_SIZE,
            r matches Ok(s) ==> s@ == c_str@,
            r is Err ==> r == Err::<SpaStr, PodError>(PodError::InvalidSize),
    {
        if c_str.len() <= MAX_SIZE as usize {
            Ok(SpaStr { bytes: vstd::slice::slice_to_vec(c_str) })
        } else {
            Err(PodError::InvalidSize)
        }
    }

    /// This returns the size, in bytes, including the NUL terminator. It is
    /// never zero.
    pub fn size(&self) -> (r: u32)
        ensures
            r == self@.len(),
            r > 0,
    {
        proof {
            use_type_invariant(self);
        }
        self.bytes.len() as u32
    }

    /// This returns the length, in bytes, excluding the NUL terminator.
    pub fn len(&self) -> (r: u32)
        ensures
            r == self@.len() - 1,
    {
        self.size() - 1
    }

    /// Returns whether or not this string is empty, ignoring the NUL terminator.
    pub fn is_empty(&self) -> (r: bool)
        ensures
            r == (self@.len() == 1),
    {
        self.len() == 0
    }

    /// Returns the underlying bytes, including the NUL terminator.
    pub fn as_bytes(&self) -> (r: &[u8])
        ensures
            r@ == self@,
            spec_is_c_string(r@),
            r@.len() <= MAX_SIZE,
    {
        proof {
            use_type_invariant(self);
        }
        self.bytes.as_slice()
    }

    /// Returns the underlying bytes, excluding the NUL terminator.
    pub fn as_body(&self) -> (r: &[u8])
        ensures
            r@ == self@.drop_last(),
    {
        proof {
            use_type_invariant(self);
        }
        let all = self.bytes.as_slice();
        let body = vstd::slice::slice_subrange(all, 0, all.len() - 1);
        proof {
            assert(body@ =~= self@.drop_last());
        }
        body
    }

    /// Attempts to convert the underlying buffer to a `str`, including the
    /// NUL terminator: succeeds exactly when the bytes are valid UTF-8.
    pub fn to_str(&self) -> (r: Result<&str, core::str::Utf8Error>)
        ensures
            r is Ok <==> valid_utf8(self@),
            r is Ok <==> valid_utf8(self@.drop_last()),
            r matches Ok(s) ==> s.spec_bytes() == self@,
    {
        proof {
            use_type_invariant(self);
            lemma_c_string_utf8(self@);
        }
        str_from_utf8(self.as_bytes())
    }

    /// Attempts to convert the underlying buffer to a `str`, excluding the
    /// NUL terminator: succeeds exactly when those bytes are valid UTF-8.
    pub fn to_body_str(&self) -> (r: Result<&str, core::str::Utf8Error>)
        ensures
            r is Ok <==> valid_utf8(self@.drop_last()),
            r is Ok <==> valid_utf8(self@),
            r matches Ok(s) ==> s.spec_bytes() == self@.drop_last(),
            r matches Ok(s) ==> s.spec_bytes() + seq![0u8] == self@,
            r matches Ok(s) ==> s.spec_bytes().len() == self@.len() - 1,
            r matches Ok(s) ==> !spec_has_nul(s.spec_bytes()),
    {
        proof {
            use_type_invariant(self);
            lemma_c_string_utf8(self@);
        }
        str_from_utf8(self.as_body())
    }
}

impl AsBytes for SpaStr {
    open spec fn spec_bytes(&self) -> Seq<u8> {
        self@
    }

    fn to_bytes(&self) -> (r: Vec<u8>) {
        self.bytes.clone()
    }
}

} // verus!
