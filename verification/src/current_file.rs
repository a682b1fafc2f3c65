//! The file being written, and how the files of a split output are named.

use vstd::prelude::*;
use vstd::arithmetic::div_mod::{lemma_basic_div, lemma_div_denominator, lemma_div_non_zero};
use crate::digits::{lemma_pow10_positive, pow10};
use crate::error::ExportError;
use crate::text_util::{chars_of, string_of};

verus! {

/// The character of the decimal digit `d`.
pub open spec fn digit_char(d: nat) -> char {
    ((48 + d) as u8) as char
}

/// The decimal digits of `n` in a field of `width` characters, padded with
/// zeros on the left. Holds all of `n` only where `n < pow10(width)`.
pub open spec fn zero_padded(n: nat, width: nat) -> Seq<char> {
    Seq::new(width, |i: int| digit_char((n / pow10((width - 1 - i) as nat)) % 10))
}

/// Whether the dot at position `p` of `path` starts the extension of the file
/// name: it is the last dot, lies in the last component, and is not that
/// component's first character.
pub open spec fn is_extension_dot(path: Seq<char>, p: int) -> bool {
    &&& 0 < p < path.len()
    &&& path[p] == '.'
    &&& path[p - 1] != '/'
    &&& forall|j: int| p < j < path.len() ==> path[j] != '.' && path[j] != '/'
}

/// Where the stem of the file name ends: at the dot of the extension, or at
/// the end of the path where the name has no extension.
pub open spec fn stem_end(path: Seq<char>) -> int {
    if exists|p: int| is_extension_dot(path, p) {
        choose|p: int| is_extension_dot(path, p)
    } else {
        path.len() as int
    }
}

/// The name of file number `n` of a split output: `_` and the number, zero
/// padded to `width` digits, go between the stem and the extension of `path`.
pub open spec fn suffixed_path(path: Seq<char>, n: nat, width: nat) -> Seq<char> {
    path.take(stem_end(path)) + seq!['_'] + zero_padded(n, width) + path.skip(stem_end(path))
}

/// At most one dot starts the extension.
pub proof fn lemma_extension_dot_is_unique(path: Seq<char>, p: int, q: int)
    requires
        is_extension_dot(path, p),
        is_extension_dot(path, q),
    ensures
        p == q,
{
}

/// Finds where the stem of the file name in `path` ends.
fn find_stem_end(path: &Vec<char>) -> (end: usize)
    ensures
        end == stem_end(path@),
        end <= path.len(),
{
    let len = path.len();
    let mut i: usize = len;
    while i > 0
        invariant
            i <= len,
            len == path.len(),
            forall|j: int| i <= j < len ==> path@[j] != '.' && path@[j] != '/',
        decreases i,
    {
        let c = path[i - 1];
        if c == '/' {
            assert forall|q: int| !is_extension_dot(path@, q) by {
                if is_extension_dot(path@, q) {
                    assert(q < i - 1);
                    assert(path@[i - 1] == '/');
                }
            }
            return len;
        }
        if c == '.' {
            if i - 1 > 0 && path[i - 2] != '/' {
                assert(is_extension_dot(path@, i - 1));
                proof {
                    let q = choose|q: int| is_extension_dot(path@, q);
                    lemma_extension_dot_is_unique(path@, q, i - 1);
                }
                return i - 1;
            } else {
                assert forall|q: int| !is_extension_dot(path@, q) by {
                    if is_extension_dot(path@, q) {
                        assert(q <= i - 1);
                        if q < i - 1 {
                            assert(path@[i - 1] == '.');
                        }
                    }
                }
                return len;
            }
        }
        i -= 1;
    }
    assert forall|q: int| !is_extension_dot(path@, q) by {}
    len
}

/// The digits of `n` in `width` characters, or `None` where they do not fit.
fn zero_padded_digits(n: u32, width: usize) -> (digits: Option<Vec<char>>)
    ensures
        digits is Some <==> n < pow10(width as nat),
        digits matches Some(d) ==> d@ == zero_padded(n as nat, width as nat),
{
    // Least significant digit first.
    let mut reversed: Vec<char> = Vec::new();
    let mut rest: u32 = n;
    let mut j: usize = 0;
    assert(pow10(0) == 1);
    while j < width
        invariant
            j <= width,
            reversed.len() == j,
            rest == n as nat / pow10(j as nat),
            forall|k: int|
                0 <= k < j ==> reversed@[k] == digit_char(
                    (n as nat / pow10(k as nat)) % 10,
                ),
        decreases width - j,
    {
        let d: u8 = (rest % 10) as u8;
        proof {
            lemma_pow10_positive(j as nat);
            lemma_div_denominator(n as int, pow10(j as nat) as int, 10);
            assert(pow10((j + 1) as nat) == pow10(j as nat) * 10);
        }
        reversed.push((48u8 + d) as char);
        rest = rest / 10;
        j += 1;
    }
    proof {
        lemma_pow10_positive(width as nat);
        if n < pow10(width as nat) {
            lemma_basic_div(n as int, pow10(width as nat) as int);
        } else {
            lemma_div_non_zero(n as int, pow10(width as nat) as int);
        }
    }
    if rest != 0 {
        return None;
    }
    let mut digits: Vec<char> = Vec::new();
    let mut i: usize = 0;
    while i < width
        invariant
            i <= width,
            reversed.len() == width,
            digits.len() == i,
            forall|k: int| 0 <= k < i ==> digits@[k] == reversed@[width - 1 - k],
        decreases width - i,
    {
        digits.push(reversed[width - 1 - i]);
        i += 1;
    }
    assert(digits@ =~= zero_padded(n as nat, width as nat));
    Some(digits)
}

/// The name of file number `n` of an output that is split into several files:
/// `path` with `_` and the number, zero padded to `width` digits, put between
/// the stem and the extension of its file name. Fails with `TooManyFiles`
/// exactly where the number has more than `width` digits.
pub fn path_with_suffix(path: &str, n: u32, width: usize) -> (result: Result<String, ExportError>)
    ensures
        result is Ok <==> n < pow10(width as nat),
        result matches Ok(name) ==> name@ == suffixed_path(path@, n as nat, width as nat),
        result matches Err(e) ==> e == ExportError::TooManyFiles,
{
    let digits = match zero_padded_digits(n, width) {
        Some(digits) => digits,
        None => {
            return Err(ExportError::TooManyFiles);
        },
    };
    let chars = chars_of(path);
    let end = find_stem_end(&chars);
    let mut name: Vec<char> = Vec::new();
    let mut i: usize = 0;
    while i < end
        invariant
            i <= end <= chars.len(),
            name@ == chars@.take(i as int),
        decreases end - i,
    {
        name.push(chars[i]);
        i += 1;
    }
    name.push('_');
    let mut k: usize = 0;
    while k < digits.len()
        invariant
            k <= digits.len(),
            end <= chars.len(),
            name@ == chars@.take(end as int) + seq!['_'] + digits@.take(k as int),
        decreases digits.len() - k,
    {
        name.push(digits[k]);
        k += 1;
    }
    assert(digits@.take(digits.len() as int) == digits@);
    let mut i: usize = end;
    while i < chars.len()
        invariant
            end <= i <= chars.len(),
            name@ == chars@.take(end as int) + seq!['_'] + digits@ + chars@.subrange(
                end as int,
                i as int,
            ),
        decreases chars.len() - i,
    {
        name.push(chars[i]);
        i += 1;
    }
    assert(chars@.subrange(end as int, chars.len() as int) == chars@.skip(end as int));
    Ok(string_of(&name))
}

/// Where the rows go: a file, or the standard output stream.
#[derive(Debug)]
pub enum OutputTarget {
    /// The standard output stream of the process.
    StdStream,
    /// The file at this path.
    File(String),
}

impl Clone for OutputTarget {
    fn clone(&self) -> (copy: Self)
        ensures
            copy == *self,
    {
        match self {
            OutputTarget::StdStream => OutputTarget::StdStream,
            OutputTarget::File(path) => OutputTarget::File(path.clone()),
        }
    }
}

impl OutputTarget {
    /// The path of a file target, `None` for the stream.
    pub open spec fn path(&self) -> Option<Seq<char>> {
        match self {
            OutputTarget::StdStream => None,
            OutputTarget::File(path) => Some(path@),
        }
    }
}

/// What is known of one output file.
#[derive(Debug, Clone, Copy, PartialEq, Eq, Structural)]
pub struct FileSummary {
    /// Position among the files of the export, counted from one.
    pub number: u32,
    /// Rows written to the file.
    pub rows: usize,
    /// Row groups written to the file.
    pub row_groups: usize,
    /// Size on disk, sampled after the last row group was flushed.
    pub bytes: u64,
    /// Size on disk before the last row group was written.
    pub bytes_before_last_group: u64,
}

impl FileSummary {
    /// A file with this number that holds nothing yet.
    pub open spec fn spec_empty(number: u32) -> FileSummary {
        FileSummary { number, rows: 0, row_groups: 0, bytes: 0, bytes_before_last_group: 0 }
    }

    /// A file with this number that holds nothing yet.
    #[verifier::when_used_as_spec(spec_empty)]
    pub fn empty(number: u32) -> (file: FileSummary)
        ensures
            file == FileSummary::spec_empty(number),
    {
        FileSummary { number, rows: 0, row_groups: 0, bytes: 0, bytes_before_last_group: 0 }
    }

    /// The file after one more row group of `rows` rows, once the encoder has
    /// flushed it and the file takes `file_size` bytes on disk.
    pub open spec fn with_row_group(&self, rows: usize, file_size: u64) -> FileSummary {
        FileSummary {
            number: self.number,
            rows: (self.rows + rows) as usize,
            row_groups: (self.row_groups + 1) as usize,
            bytes: file_size,
            bytes_before_last_group: self.bytes,
        }
    }
}

/// The file that is open for writing: where it goes and what it holds so far.
/// The caller keeps the encoder that belongs to it.
#[derive(Debug)]
pub struct CurrentFile {
    /// The file's own target: for split output the path with its suffix.
    pub target: OutputTarget,
    /// Running counts of the file.
    pub stats: FileSummary,
}

} // verus!
