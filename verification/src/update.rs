//! Telling from the output of `pull` whether a newer image came.

use vstd::prelude::*;
use vstd::string::*;
use crate::text::{contains, has_substring, texts};

verus! {

/// The words with which `pull` reports that it downloaded a newer image.
pub const UPDATE_MARKER: &'static str = "Status: Downloaded newer image";

/// Whether one of `lines` reports a download.
pub open spec fn reports_update(lines: Seq<Seq<char>>) -> bool {
    exists|i: int| 0 <= i < lines.len() && has_substring(#[trigger] lines[i], UPDATE_MARKER@)
}

/// Tells whether `line` reports that a newer image was downloaded.
pub fn line_reports_update(line: &str) -> (r: bool)
    ensures
        r == has_substring(line@, UPDATE_MARKER@),
{
    contains(line, UPDATE_MARKER)
}

/// Takes one more line of the output of `pull` into account: the result is
/// 1 where the line reports a download, and `is_updated` where it does not.
pub fn note_pull_line(is_updated: u8, line: &str) -> (r: u8)
    ensures
        r == if has_substring(line@, UPDATE_MARKER@) {
            1u8
        } else {
            is_updated
        },
{
    if line_reports_update(line) {
        1
    } else {
        is_updated
    }
}

/// Reads the whole output of `pull`: 1 where a line reports that a newer
/// image was downloaded, 0 where none does.
pub fn pull_result(lines: &Vec<String>) -> (r: u8)
    ensures
        r == if reports_update(texts(lines@)) {
            1u8
        } else {
            0u8
        },
{
    let ghost all = texts(lines@);
    let mut is_updated: u8 = 0;
    let n = lines.len();
    let mut i: usize = 0;
    while i < n
        invariant
            n == lines@.len(),
            all == texts(lines@),
            i <= n,
            is_updated == if reports_update(all.take(i as int)) {
                1u8
            } else {
                0u8
            },
        decreases n - i,
    {
        let ghost before = all.take(i as int);
        let ghost after = all.take(i + 1);
        is_updated = note_pull_line(is_updated, lines[i].as_str());
        proof {
            assert(after[i as int] == lines@[i as int]@);
            if reports_update(before) {
                let k = choose|k: int|
                    0 <= k < before.len() && has_substring(#[trigger] before[k], UPDATE_MARKER@);
                assert(after[k] == before[k]);
            }
            if reports_update(after) && !has_substring(lines@[i as int]@, UPDATE_MARKER@) {
                let k = choose|k: int|
                    0 <= k < after.len() && has_substring(#[trigger] after[k], UPDATE_MARKER@);
                assert(before[k] == after[k]);
            }
        }
        i += 1;
    }
    proof {
        assert(all.take(n as int) =~= all);
    }
    is_updated
}

} // verus!
