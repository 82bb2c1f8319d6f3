//! Output-path classification for the surrounding muxer choice.
//!
//! The byte-level rule: a path asks for a container exactly when it
//! ends in a ".mp4" suffix, letter case ignored, with the dot following
//! at least one non-separator character of the file name.

use vstd::prelude::*;

verus! {

/// Whether a path ends in a ".mp4" suffix, letter case ignored, with
/// the dot preceded by a non-separator character.
pub open spec fn mp4_suffix(s: Seq<u8>) -> bool {
    &&& s.len() >= 5
    &&& s[s.len() - 5] != 47
    &&& s[s.len() - 4] == 46
    &&& (s[s.len() - 3] == 109 || s[s.len() - 3] == 77)
    &&& (s[s.len() - 2] == 112 || s[s.len() - 2] == 80)
    &&& s[s.len() - 1] == 52
}

/// Whether an output path needs a full container rather than the plain
/// frame writer: only an ".mp4" extension does.
pub fn need_container(path: &[u8]) -> (r: bool)
    ensures
        r == mp4_suffix(path@),
{
    let n = path.len();
    if n < 5 {
        return false;
    }
    let before = path[n - 5];
    let dot = path[n - 4];
    let m = path[n - 3];
    let p = path[n - 2];
    let four = path[n - 1];
    before != 47 && dot == 46 && (m == 109 || m == 77) && (p == 112 || p == 80) && four == 52
}

} // verus!
