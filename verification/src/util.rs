//! Small shared helpers.

use vstd::prelude::*;
use vstd::string::StringSliceAdditionalSpecFns;

verus! {

/// Last position after a path separator in `[0, j)`, scanning back.
pub open spec fn stem_start_s(s: Seq<u8>, j: int) -> int
    decreases j,
{
    if j <= 0 || j > s.len() {
        0
    } else if s[j - 1] == 47 || s[j - 1] == 92 {
        j
    } else {
        stem_start_s(s, j - 1)
    }
}

/// End of the stem in `[i, j)`: the last dot after `i` cuts the
/// extension off; a dot in first position marks a hidden file and does
/// not count.
pub open spec fn stem_end_s(s: Seq<u8>, i: int, j: int) -> int
    decreases j - i,
{
    if j <= i || j > s.len() {
        j
    } else if s[j - 1] == 46 && j - 1 > i {
        j - 1
    } else if exists|k: int| i < k < j && s[k] == 46 {
        stem_end_s(s, i, j - 1)
    } else {
        j
    }
}

/// The file stem of a path: everything after the last separator, with
/// the extension after the last dot removed; nothing for an empty stem.
pub open spec fn filename_s(s: Seq<u8>) -> Option<Seq<char>> {
    let a = stem_start_s(s, s.len() as int);
    let b = stem_end_s(s, a, s.len() as int);
    if a >= b {
        Option::None
    } else {
        Option::Some(s.subrange(a, b).map_values(|x: u8| x as char))
    }
}

/// Remove the directory path and the file extension from a path: the
/// bytes after the last separator, up to the last dot (a leading dot
/// marks a hidden file and stays).  Nothing when no stem remains; for a
/// plain (ASCII) path the returned characters are exactly the stem's.
pub fn filename(file: &str) -> (r: Option<String>)
    ensures
        r is Some <==> filename_s(file.spec_bytes()) is Some,
        (forall|i: int| 0 <= i < file.spec_bytes().len() ==> file.spec_bytes()[i] < 128)
            ==> (r matches Some(out) ==> Option::Some(out@) == filename_s(file.spec_bytes())),
{
    let b = file.as_bytes();
    let n = b.len();
    let a = stem_start(b, n);
    let e = stem_end(b, a, n);
    if a >= e {
        return None;
    }
    let mut bytes: Vec<u8> = Vec::new();
    let mut i: usize = a;
    while i < e
        invariant
            a <= i <= e <= b@.len(),
            bytes@ == b@.subrange(a as int, i as int),
        decreases e - i,
    {
        bytes.push(b[i]);
        proof {
            assert(bytes@ =~= b@.subrange(a as int, i as int + 1));
        }
        i = i + 1;
    }
    proof {
        assert(bytes@ =~= b@.subrange(a as int, e as int));
    }
    Some(string_of_bytes(bytes))
}

/// Relies on String::from_utf8: bytes below 128 decode one to one, each
/// to its own character.
#[verifier::external_body]
fn string_of_bytes(v: Vec<u8>) -> (r: String)
    ensures
        (forall|i: int| 0 <= i < v@.len() ==> v@[i] < 128) ==> r@ == v@.map_values(
            |x: u8| x as char,
        ),
{
    String::from_utf8(v).unwrap_or_default()
}

fn stem_start(s: &[u8], j: usize) -> (r: usize)
    requires
        j <= s@.len(),
    ensures
        r == stem_start_s(s@, j as int),
        r <= j,
    decreases j,
{
    if j == 0 {
        0
    } else if s[j - 1] == 47 || s[j - 1] == 92 {
        j
    } else {
        stem_start(s, j - 1)
    }
}

fn stem_end(s: &[u8], i: usize, j: usize) -> (r: usize)
    requires
        i <= j <= s@.len(),
    ensures
        r == stem_end_s(s@, i as int, j as int),
        i <= r <= j,
    decreases j,
{
    if j <= i {
        j
    } else if s[j - 1] == 46 && j - 1 > i {
        j - 1
    } else {
        let mut k: usize = i + 1;
        let mut found = false;
        while k < j
            invariant
                i + 1 <= k <= j <= s@.len(),
                found == exists|m: int| i < m < k && s@[m] == 46,
            decreases j - k,
        {
            if s[k] == 46 {
                found = true;
            }
            k = k + 1;
        }
        if found {
            stem_end(s, i, j - 1)
        } else {
            j
        }
    }
}

/// Sounds an upward call.  Does nothing.
pub fn up() {
    doot()
}

/// Sounds a doot.  Does nothing.
pub fn doot() {
}

/// Sounds a beep, upward and to the top.  Does nothing.
pub fn beep() {
    up();
    top()
}

/// The top of the call chain.  Does nothing.
pub fn top() {
}

} // verus!
