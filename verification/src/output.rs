//! Rendering of a finished command's two output streams as one text.

use crate::text::{chars_of, trim, trimmed};
use vstd::prelude::*;
use vstd::utf8::{decode_utf8, valid_utf8};

verus! {

/// The text that lossy UTF-8 decoding makes of `bytes`: every well-formed
/// sequence decoded, every ill-formed one replaced by U+FFFD.
pub uninterp spec fn lossy_text(bytes: Seq<u8>) -> Seq<char>;

/// The two texts one after the other, with a newline between them where the
/// first is not empty and does not end in one.
pub open spec fn joined(out: Seq<char>, err: Seq<char>) -> Seq<char> {
    if out.len() > 0 && out.last() != '\n' {
        out.push('\n') + err
    } else {
        out + err
    }
}

/// The single trimmed text that stands for both streams.
pub open spec fn normalized(out: Seq<char>, err: Seq<char>) -> Seq<char> {
    trimmed(joined(out, err))
}

/// Calls `String::from_utf8_lossy` and takes ownership of what it returns.
/// Trusted: the result is named `lossy_text` of the bytes, and well-formed
/// UTF-8 is decoded as it stands.
#[verifier::external_body]
fn decode_lossy(bytes: &[u8]) -> (s: String)
    ensures
        s@ == lossy_text(bytes@),
        valid_utf8(bytes@) ==> s@ == decode_utf8(bytes@),
{
    String::from_utf8_lossy(bytes).into_owned()
}

/// Joins the decoded streams and trims the result.
pub fn merge_streams(out: &str, err: &str) -> (r: String)
    ensures
        r@ == normalized(out@, err@),
{
    let out_chars = chars_of(out);
    let n: usize = out_chars.len();
    let mut all = String::from_str(out);
    if n > 0 && out_chars[n - 1] != '\n' {
        proof {
            reveal_strlit("\n");
        }
        all.append("\n");
        assert(all@ =~= out@.push('\n'));
    }
    all.append(err);
    trim(all.as_str())
}

/// Renders the captured standard output and standard error of a command as
/// one text: both decoded leniently, joined, and trimmed.
pub fn format_output(stdout: &[u8], stderr: &[u8]) -> (r: String)
    ensures
        r@ == normalized(lossy_text(stdout@), lossy_text(stderr@)),
        valid_utf8(stdout@) && valid_utf8(stderr@) ==> r@ == normalized(
            decode_utf8(stdout@),
            decode_utf8(stderr@),
        ),
{
    let out = decode_lossy(stdout);
    let err = decode_lossy(stderr);
    merge_streams(out.as_str(), err.as_str())
}

} // verus!
