//! Reading the answers of the system tools the program runs (`id -u`,
//! `getprop`): the program runs the command and hands its exit status and
//! standard output here.
use vstd::prelude::*;
use crate::sys::{lossy_text, utf8_lossy};
use crate::text::{trim, trim_str, parse_i32_spec, parse_i32_str, chars_of};

verus! {

/// What a finished command reported: whether it exited successfully, and the
/// bytes it wrote to standard output.
pub struct CommandOutput {
    pub success: bool,
    pub stdout: Vec<u8>,
}

/// The standard output of a command as text, with surrounding whitespace
/// dropped (`String::from_utf8_lossy(..).trim()`).
pub open spec fn output_text(stdout: Seq<u8>) -> Seq<char> {
    trim(lossy_text(stdout))
}

/// `String::from_utf8_lossy(stdout).trim()`, as an owned string.
pub fn trimmed_output(stdout: &[u8]) -> (r: String)
    ensures
        r@ == output_text(stdout@),
{
    let s = utf8_lossy(stdout);
    trim_str(s.as_str())
}

/// Whether `id -u` printed the user id of root.
pub fn uid_output_is_root(stdout: &[u8]) -> (r: bool)
    ensures
        r == (output_text(stdout@) == seq!['0']),
{
    let t = trimmed_output(stdout);
    let v = chars_of(t.as_str());
    let r = v.len() == 1 && v[0] == '0';
    proof {
        if v.len() == 1 && v[0] == '0' {
            assert(v@ =~= seq!['0']);
        }
    }
    r
}

/// The API level that `getprop ro.build.version.sdk` reported: 0 when the
/// command failed, the number it printed when that parses as an `i32`, and
/// otherwise the printed text as the error.
pub fn api_level_from_output(out: &CommandOutput) -> (r: Result<i32, String>)
    ensures
        !out.success ==> r == Ok::<i32, String>(0),
        out.success ==> match parse_i32_spec(output_text(out.stdout@)) {
            Some(v) => r == Ok::<i32, String>(v),
            None => r is Err && r->Err_0@ == output_text(out.stdout@),
        },
{
    if !out.success {
        return Ok(0);
    }
    let t = trimmed_output(out.stdout.as_slice());
    match parse_i32_str(t.as_str()) {
        Some(v) => Ok(v),
        None => Err(t),
    }
}

/// A character with ASCII upper case folded to lower case.
pub open spec fn fold_ascii(c: char) -> char {
    if 65 <= (c as u32) <= 90 {
        ((c as u32) + 32) as char
    } else {
        c
    }
}

/// `s.to_lowercase() == word` for a word of lower-case ASCII letters and
/// digits: no character outside ASCII lowercases to such a letter, so only
/// the ASCII letters fold.
pub open spec fn lowercase_equals(s: Seq<char>, word: Seq<char>) -> bool {
    &&& s.len() == word.len()
    &&& forall|i: int| 0 <= i < s.len() ==> fold_ascii(#[trigger] s[i]) == word[i]
}

fn fold_matches(c: char, w: char) -> (r: bool)
    ensures
        r == (fold_ascii(c) == w),
{
    let v = c as u32;
    if 65 <= v && v <= 90 {
        (v + 32) == (w as u32)
    } else {
        c == w
    }
}

fn lowercase_equals_exec(s: &Vec<char>, word: &Vec<char>) -> (r: bool)
    ensures
        r == lowercase_equals(s@, word@),
{
    if s.len() != word.len() {
        return false;
    }
    let mut i: usize = 0;
    while i < s.len()
        invariant
            s.len() == word.len(),
            i <= s.len(),
            forall|t: int| 0 <= t < i ==> fold_ascii(#[trigger] s@[t]) == word@[t],
        decreases s.len() - i,
    {
        if !fold_matches(s[i], word[i]) {
            return false;
        }
        i += 1;
    }
    true
}

/// Whether `getprop ro.build.ab_update` reported A/B partitions: the command
/// ran, succeeded, and printed `true` (in any letter case) or `1`.
pub fn ab_partitions_from_output(out: Option<&CommandOutput>) -> (r: bool)
    ensures
        r == match out {
            Some(o) => o.success && (lowercase_equals(output_text(o.stdout@), seq!['t', 'r', 'u', 'e'])
                || lowercase_equals(output_text(o.stdout@), seq!['1'])),
            None => false,
        },
{
    match out {
        Some(o) => {
            if !o.success {
                return false;
            }
            let t = trimmed_output(o.stdout.as_slice());
            let v = chars_of(t.as_str());
            let word_true: Vec<char> = vec!['t', 'r', 'u', 'e'];
            let word_one: Vec<char> = vec!['1'];
            assert(word_true@ =~= seq!['t', 'r', 'u', 'e']);
            assert(word_one@ =~= seq!['1']);
            lowercase_equals_exec(&v, &word_true) || lowercase_equals_exec(&v, &word_one)
        },
        None => false,
    }
}

} // verus!
