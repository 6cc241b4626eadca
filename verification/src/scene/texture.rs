use vstd::prelude::*;
use vstd::string::StringSliceAdditionalSpecFns;
use vstd::utf8::*;

use crate::text::str_from_utf8;

verus! {

/// One texel of an embedded texture.
#[derive(Clone, Copy, Debug, PartialEq, Eq, Structural)]
pub struct Texel {
    pub b: u8,
    pub g: u8,
    pub r: u8,
    pub a: u8,
}

/// A texture embedded in a scene file.
///
/// When compressed (e.g. PNG, JPEG), `height` is 0 and `width` is the size of
/// the data in bytes; otherwise the data holds `width * height` texels.
/// `format_hint` is a NUL-terminated byte string naming the format.
#[derive(Debug, PartialEq, Eq)]
pub struct Texture {
    pub width: u32,
    pub height: u32,
    pub format_hint: [u8; 9],
    pub data: Vec<Texel>,
}

/// The bytes of `s` before its first NUL byte (all of `s` if there is none).
pub open spec fn until_nul(s: Seq<u8>) -> Seq<u8>
    decreases s.len(),
{
    if s.len() == 0 {
        s
    } else if s[0] == 0 {
        Seq::empty()
    } else {
        seq![s[0]] + until_nul(s.drop_first())
    }
}

/// When `s[n]` is the first NUL byte, the bytes before it are `s[..n]`.
proof fn lemma_until_nul(s: Seq<u8>, n: int)
    requires
        0 <= n < s.len(),
        s[n] == 0,
        forall|j: int| 0 <= j < n ==> s[j] != 0,
    ensures
        until_nul(s) =~= s.subrange(0, n),
    decreases n,
{
    if n > 0 {
        lemma_until_nul(s.drop_first(), n - 1);
        assert(seq![s[0]] + s.drop_first().subrange(0, n - 1) =~= s.subrange(0, n));
    }
}

impl Texture {
    /// The data matches the size: a compressed texture's texels fit in its
    /// `width` bytes (4 bytes per texel); an uncompressed one holds
    /// `width * height` texels.
    pub open spec fn wf(&self) -> bool {
        if self.height == 0 {
            self.data.len() * 4 <= self.width
        } else {
            self.data.len() == self.width * self.height
        }
    }

    pub fn width(&self) -> (w: u32)
        ensures
            w == self.width,
    {
        self.width
    }

    pub fn height(&self) -> (h: u32)
        ensures
            h == self.height,
    {
        self.height
    }

    /// Returns true if the texture is stored in a compressed format (e.g. PNG, JPEG).
    /// When compressed, `height` is 0 and `width` contains the size in bytes.
    pub fn is_compressed(&self) -> (b: bool)
        ensures
            b == (self.height == 0),
    {
        self.height == 0
    }

    /// The format hint up to its NUL byte, or the empty string when those
    /// bytes are not valid UTF-8.
    pub fn format_hint(&self) -> (hint: &str)
        requires
            self.format_hint@.contains(0u8),
        ensures
            valid_utf8(until_nul(self.format_hint@)) ==> hint.spec_bytes() == until_nul(
                self.format_hint@,
            ) && hint@ == decode_utf8(until_nul(self.format_hint@)),
            !valid_utf8(until_nul(self.format_hint@)) ==> hint@ == Seq::<char>::empty(),
    {
        let mut n: usize = 0;
        while n < 9 && self.format_hint[n] != 0
            invariant
                n <= 9,
                self.format_hint@.contains(0u8),
                forall|j: int| 0 <= j < n ==> self.format_hint@[j] != 0,
            decreases 9 - n,
        {
            n = n + 1;
        }
        proof {
            if n == 9 {
                let k = choose|k: int| 0 <= k < 9 && self.format_hint@[k] == 0u8;
                assert(self.format_hint@[k] == 0u8);
            }
            lemma_until_nul(self.format_hint@, n as int);
        }
        let all = vstd::array::array_as_slice(&self.format_hint);
        let bytes = vstd::slice::slice_subrange(all, 0, n);
        match str_from_utf8(bytes) {
            Some(s) => {
                proof {
                    encode_utf8_decode_utf8(s@);
                }
                s
            },
            None => {
                proof {
                    reveal_strlit("");
                }
                ""
            },
        }
    }

    /// The texture's data. A compressed texture's data lies within its
    /// `width` bytes; an uncompressed one holds `width * height` texels.
    pub fn data(&self) -> (texels: &[Texel])
        requires
            self.wf(),
        ensures
            texels@ == self.data@,
            self.height == 0 ==> texels@.len() * 4 <= self.width,
            self.height != 0 ==> texels@.len() == self.width * self.height,
    {
        self.data.as_slice()
    }
}

} // verus!
