//! Opening a terminal in the directory of the focused one.

use vstd::prelude::*;
use vstd::string::StringSliceAdditionalSpecFns;
use crate::codec::{SPACE, same_bytes};

verus! {

/// The window class of the terminal whose titles end with its working directory.
pub const TERMINAL_CLASS: &'static str = "com.mitchellh.ghostty";
pub const SLASH: u8 = 47;
pub const TILDE: u8 = 126;

/// Byte `i` of the title starts a word that starts with `/` or `~`.
pub open spec fn is_path_start(t: Seq<u8>, i: int) -> bool {
    &&& 0 <= i < t.len()
    &&& (i == 0 || t[i - 1] == SPACE)
    &&& (t[i] == SLASH || t[i] == TILDE)
}

/// Where the working directory starts in a title: the last word that starts
/// with `/` or `~`; the directory is the rest of the title from there.
pub fn directory_start(title: &[u8]) -> (r: Option<usize>)
    ensures
        match r {
            Some(i) => is_path_start(title@, i as int) && forall|j: int|
                i < j < title@.len() ==> !is_path_start(title@, j),
            None => forall|j: int| 0 <= j < title@.len() ==> !is_path_start(title@, j),
        },
{
    let mut k: usize = title.len();
    while k > 0
        invariant
            k <= title@.len(),
            forall|j: int| k <= j < title@.len() ==> !is_path_start(title@, j),
        decreases k,
    {
        let i = k - 1;
        if (i == 0 || title[i - 1] == SPACE) && (title[i] == SLASH || title[i] == TILDE) {
            return Some(i);
        }
        k = i;
    }
    None
}

/// Where the working directory starts in the title of the active window,
/// when that window is the terminal and its title names a directory.
pub fn terminal_directory(class: &str, title: &str) -> (r: Option<usize>)
    ensures
        class.spec_bytes() != TERMINAL_CLASS.spec_bytes() ==> r is None,
        class.spec_bytes() == TERMINAL_CLASS.spec_bytes() ==> match r {
            Some(i) => is_path_start(title.spec_bytes(), i as int) && forall|j: int|
                i < j < title.spec_bytes().len() ==> !is_path_start(title.spec_bytes(), j),
            None => forall|j: int|
                0 <= j < title.spec_bytes().len() ==> !is_path_start(title.spec_bytes(), j),
        },
{
    if !same_bytes(class.as_bytes(), TERMINAL_CLASS.as_bytes()) {
        return None;
    }
    directory_start(title.as_bytes())
}

} // verus!
