use vstd::prelude::*;
use vstd::utf8::*;

use crate::text::str_from_utf8;

verus! {

broadcast use vstd::utf8::group_utf8_lib;

/// A linked GL shader program, known by its program id.
#[derive(Clone, Copy, Debug, PartialEq, Eq, Structural)]
pub struct Shader {
    pub id: u32,
}

/// The step of building a shader program that can fail.
#[derive(Clone, Copy, Debug, PartialEq, Eq, Structural)]
pub enum ShaderStage {
    /// Compiling the vertex shader.
    Vertex,
    /// Compiling the fragment shader.
    Fragment,
    /// Linking the program.
    Program,
}

/// The character a byte of a GL info log stands for.
pub open spec fn log_char(b: i8) -> char {
    (b as u32) as char
}

/// The characters of a GL info log buffer.
pub open spec fn log_chars(log: Seq<i8>) -> Seq<char> {
    log.map_values(|b: i8| log_char(b))
}

/// Whether `c` is white space in the sense of Unicode's `White_Space` property.
pub open spec fn is_white_space(c: char) -> bool {
    ||| '\t' <= c <= '\r'
    ||| c == ' '
    ||| c == '\u{85}'
    ||| c == '\u{a0}'
    ||| c == '\u{1680}'
    ||| '\u{2000}' <= c <= '\u{200a}'
    ||| c == '\u{2028}'
    ||| c == '\u{2029}'
    ||| c == '\u{202f}'
    ||| c == '\u{205f}'
    ||| c == '\u{3000}'
}

/// `s` without its leading white space.
pub open spec fn trim_start(s: Seq<char>) -> Seq<char>
    decreases s.len(),
{
    if s.len() > 0 && is_white_space(s[0]) {
        trim_start(s.drop_first())
    } else {
        s
    }
}

/// `s` without its trailing white space.
pub open spec fn trim_end(s: Seq<char>) -> Seq<char>
    decreases s.len(),
{
    if s.len() > 0 && is_white_space(s.last()) {
        trim_end(s.drop_last())
    } else {
        s
    }
}

/// `s` without leading and trailing white space.
pub open spec fn trim(s: Seq<char>) -> Seq<char> {
    trim_end(trim_start(s))
}

/// The first line of the error reported when a stage fails.
pub open spec fn failure_heading(stage: ShaderStage) -> Seq<char> {
    match stage {
        ShaderStage::Vertex => "ERROR::SHADER::VERTEX::COMPILATION::FAILED"@,
        ShaderStage::Fragment => "ERROR::SHADER::FRAGMENT::COMPILATION::FAILED"@,
        ShaderStage::Program => "ERROR::SHADER::PROGRAM::LINKING_FAILED"@,
    }
}

/// The bytes of an info log buffer are character codes below 128.
pub open spec fn log_is_ascii(log: Seq<i8>) -> bool {
    forall|i: int| 0 <= i < log.len() ==> log[i] >= 0
}

fn is_ascii_white_space(b: u8) -> (w: bool)
    requires
        b < 128,
    ensures
        w == is_white_space((b as u32) as char),
{
    b == 9 || b == 10 || b == 11 || b == 12 || b == 13 || b == 32
}

proof fn lemma_trim_start_skip(s: Seq<char>, i: int)
    requires
        0 <= i <= s.len(),
        forall|j: int| 0 <= j < i ==> is_white_space(s[j]),
    ensures
        trim_start(s) == trim_start(s.subrange(i, s.len() as int)),
    decreases i,
{
    if i > 0 {
        lemma_trim_start_skip(s.drop_first(), i - 1);
        assert(s.drop_first().subrange(i - 1, s.drop_first().len() as int) =~= s.subrange(
            i,
            s.len() as int,
        ));
    } else {
        assert(s.subrange(0, s.len() as int) =~= s);
    }
}

proof fn lemma_trim_end_skip(s: Seq<char>, e: int)
    requires
        0 <= e <= s.len(),
        forall|j: int| e <= j < s.len() ==> is_white_space(s[j]),
    ensures
        trim_end(s) == trim_end(s.subrange(0, e)),
    decreases s.len() - e,
{
    if e < s.len() {
        lemma_trim_end_skip(s.drop_last(), e);
        assert(s.drop_last().subrange(0, e) =~= s.subrange(0, e));
    } else {
        assert(s.subrange(0, e) =~= s);
    }
}

/// The text of a GL info log buffer: its bytes as characters, without
/// leading and trailing white space.
pub fn info_log_text(info_log: &[i8]) -> (text: String)
    requires
        log_is_ascii(info_log@),
    ensures
        text@ == trim(log_chars(info_log@)),
{
    let ghost chars = log_chars(info_log@);
    let n = info_log.len();
    let mut bytes: Vec<u8> = Vec::new();
    let mut k: usize = 0;
    while k < n
        invariant
            k <= n == info_log@.len(),
            log_is_ascii(info_log@),
            bytes.len() == k,
            forall|j: int| 0 <= j < k ==> bytes@[j] == info_log@[j] as u8 && bytes@[j] < 128,
        decreases n - k,
    {
        bytes.push(info_log[k] as u8);
        k = k + 1;
    }
    assert forall|j: int| 0 <= j < n implies #[trigger] chars[j] == (bytes@[j] as u32) as char by {
        assert(info_log@[j] >= 0);
    }
    let mut start: usize = 0;
    while start < n && is_ascii_white_space(bytes[start])
        invariant
            start <= n == bytes.len() == chars.len(),
            forall|j: int| 0 <= j < n ==> #[trigger] bytes@[j] < 128,
            forall|j: int| 0 <= j < n ==> #[trigger] chars[j] == (bytes@[j] as u32) as char,
            forall|j: int| 0 <= j < start ==> is_white_space(chars[j]),
        decreases n - start,
    {
        start = start + 1;
    }
    let mut end: usize = n;
    while end > start && is_ascii_white_space(bytes[end - 1])
        invariant
            start <= end <= n == bytes.len() == chars.len(),
            forall|j: int| 0 <= j < n ==> #[trigger] bytes@[j] < 128,
            forall|j: int| 0 <= j < n ==> #[trigger] chars[j] == (bytes@[j] as u32) as char,
            forall|j: int| end <= j < n ==> is_white_space(chars[j]),
        decreases end - start,
    {
        end = end - 1;
    }
    let ghost kept = chars.subrange(start as int, end as int);
    proof {
        lemma_trim_start_skip(chars, start as int);
        let rest = chars.subrange(start as int, n as int);
        assert(trim_start(rest) == rest);
        lemma_trim_end_skip(rest, end - start);
        assert(rest.subrange(0, end - start) =~= kept);
        if end > start {
            assert(!is_white_space(kept.last()));
        }
        assert(trim_end(kept) == kept);
    }
    let slice = vstd::slice::slice_subrange(bytes.as_slice(), start, end);
    proof {
        assert(is_ascii_chars(kept)) by {
            assert forall|j: int| 0 <= j < kept.len() implies '\0' <= #[trigger] kept[j] <= '\u{7f}' by {
                assert(kept[j] == chars[start + j]);
                assert(bytes@[start + j] < 128);
            }
        }
        is_ascii_chars_encode_utf8(kept);
        assert forall|j: int| 0 <= j < kept.len() implies #[trigger] encode_utf8(kept)[j] == slice@[j] by {
            assert(kept[j] == chars[start + j]);
            let b = bytes@[start + j];
            assert(b < 128);
            assert(((b as u32) as char) as u8 == b);
        }
        assert(encode_utf8(kept) =~= slice@);
        encode_utf8_valid_utf8(kept);
    }
    let s = match str_from_utf8(slice) {
        Some(s) => s,
        None => {
            proof {
                assert(false);
            }
            ""
        },
    };
    proof {
        encode_utf8_decode_utf8(kept);
        encode_utf8_decode_utf8(s@);
    }
    String::from_str(s)
}

/// The error reported when `stage` fails with the given info log buffer:
/// the stage's heading, a line break, then the log's text.
pub fn failure_message(stage: ShaderStage, info_log: &[i8]) -> (msg: String)
    requires
        log_is_ascii(info_log@),
    ensures
        msg@ == failure_heading(stage) + "\n"@ + trim(log_chars(info_log@)),
{
    let mut msg = match stage {
        ShaderStage::Vertex => String::from_str("ERROR::SHADER::VERTEX::COMPILATION::FAILED"),
        ShaderStage::Fragment => String::from_str("ERROR::SHADER::FRAGMENT::COMPILATION::FAILED"),
        ShaderStage::Program => String::from_str("ERROR::SHADER::PROGRAM::LINKING_FAILED"),
    };
    msg.append("\n");
    let text = info_log_text(info_log);
    msg.append(text.as_str());
    msg
}

} // verus!
