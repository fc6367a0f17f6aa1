//! `rnl doctor`: how the versions that the tools report are shown.  Running
//! the tools is the program's part.
use vstd::prelude::*;
use vstd::utf8::{decode_utf8, encode_utf8_decode_utf8, is_char_boundary};
use vstd::string::StringSliceAdditionalSpecFns;
use crate::strings::{first_line, first_line_seq, trim, trim_seq};

verus! {

/// The version that a tool reports: the first line of its output, trimmed.
pub fn version_line(output: &str) -> (v: String)
    ensures
        v@ == trim_seq(first_line_seq(output@)),
{
    let line = first_line(output);
    trim(line.as_str())
}

/// The longest version shown in full, in bytes.
pub const VERSION_WIDTH: usize = 30;

/// A version as the optional tools show it: cut after `VERSION_WIDTH` bytes
/// with `...` appended when it is longer.
pub open spec fn shortened_version(bytes: Seq<u8>, chars: Seq<char>) -> Seq<char> {
    if bytes.len() > VERSION_WIDTH {
        decode_utf8(bytes.subrange(0, VERSION_WIDTH as int)) + "..."@
    } else {
        chars
    }
}

/// Shortens a long version string.  The cut must fall between two
/// characters (a cut inside a character is a panic), and the length in
/// bytes is that of a string in memory.
pub fn shorten_version(version: &str) -> (r: String)
    requires
        version.spec_bytes().len() <= usize::MAX,
        version.spec_bytes().len() > VERSION_WIDTH ==> is_char_boundary(
            version.spec_bytes(),
            VERSION_WIDTH as int,
        ),
    ensures
        r@ == shortened_version(version.spec_bytes(), version@),
{
    if version.len() > VERSION_WIDTH {
        let (head, _) = version.split_at(VERSION_WIDTH);
        proof {
            encode_utf8_decode_utf8(head@);
            assert(head.spec_bytes() == version.spec_bytes().subrange(0, VERSION_WIDTH as int));
        }
        let mut r = String::from_str(head);
        r.append("...");
        r
    } else {
        String::from_str(version)
    }
}

} // verus!
