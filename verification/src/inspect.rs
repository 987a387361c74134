//! The verdict on one run of the listing tool: the archive's record where the
//! listing is usable, a classified error where it is not.

use vstd::prelude::*;
use vstd::slice::slice_subrange;
use vstd::string::StringExecFns;
use crate::listing::{
    empty_listing_yields_nothing, file_type_of, listing_info, parse_listing, ArchiveInfo,
    ArchiveInfoView,
};
use crate::text::{chars_of, string_of, trim, trimmed};

verus! {

/// `s` with every carriage return that stands before a line feed removed.
pub open spec fn unix_newlines(s: Seq<char>) -> Seq<char>
    decreases s.len(),
{
    if s.len() == 0 {
        s
    } else if s.len() >= 2 && s[0] == '\r' && s[1] == '\n' {
        seq!['\n'] + unix_newlines(s.skip(2))
    } else {
        seq![s[0]] + unix_newlines(s.skip(1))
    }
}

/// The character of a decimal digit.
pub open spec fn digit_char(d: int) -> char {
    if d == 0 {
        '0'
    } else if d == 1 {
        '1'
    } else if d == 2 {
        '2'
    } else if d == 3 {
        '3'
    } else if d == 4 {
        '4'
    } else if d == 5 {
        '5'
    } else if d == 6 {
        '6'
    } else if d == 7 {
        '7'
    } else if d == 8 {
        '8'
    } else {
        '9'
    }
}

/// The decimal digits of `n`, without leading zeros.
pub open spec fn decimal(n: nat) -> Seq<char>
    decreases n,
{
    if n < 10 {
        seq![digit_char(n as int)]
    } else {
        decimal(n / 10).push(digit_char((n % 10) as int))
    }
}

/// The first `limit` characters of `s`, or all of it where it is shorter.
pub open spec fn prefix(s: Seq<char>, limit: nat) -> Seq<char> {
    if s.len() <= limit {
        s
    } else {
        s.subrange(0, limit as int)
    }
}

/// The message for a listing that gave nothing although the tool reported the
/// positive exit code `code`: the code, the trimmed error output and the first
/// 200 characters of the trimmed standard output.
pub open spec fn failure_message(code: nat, stderr: Seq<char>, stdout: Seq<char>) -> Seq<char> {
    "7zz failed with code "@ + decimal(code) + ". Stderr: '"@ + trimmed(stderr)
        + "'. Stdout trace: '"@ + prefix(trimmed(stdout), 200) + "'"@
}

/// The verdict on one run of the listing tool. A listing that yields a format
/// tag is a success whatever the exit code. Otherwise a positive exit code is
/// reported with the tool's output, and any other code as empty output.
pub open spec fn verdict(stdout: Seq<char>, stderr: Seq<char>, exit_code: int) -> Result<
    ArchiveInfoView,
    Seq<char>,
> {
    let text = unix_newlines(stdout);
    if file_type_of(text).len() > 0 {
        Ok(listing_info(text))
    } else if exit_code > 0 {
        Err(failure_message(exit_code as nat, stderr, text))
    } else {
        Err("Empty output from 7zz"@)
    }
}

/// Empty standard output is an error whenever the exit code is not positive,
/// and names the empty output.
pub proof fn empty_output_is_an_error(stderr: Seq<char>, exit_code: int)
    requires
        exit_code <= 0,
    ensures
        verdict(Seq::empty(), stderr, exit_code) == Err::<ArchiveInfoView, Seq<char>>(
            "Empty output from 7zz"@,
        ),
{
    empty_listing_yields_nothing(Seq::empty());
}

/// A listing that yields a format tag is a success whatever the exit code.
pub proof fn usable_listing_succeeds(stdout: Seq<char>, stderr: Seq<char>, exit_code: int)
    requires
        file_type_of(unix_newlines(stdout)).len() > 0,
    ensures
        verdict(stdout, stderr, exit_code) == Ok::<ArchiveInfoView, Seq<char>>(
            listing_info(unix_newlines(stdout)),
        ),
{
}

/// Replaces each carriage return and line feed pair by a line feed.
pub fn normalize_newlines(s: &[char]) -> (out: Vec<char>)
    ensures
        out@ == unix_newlines(s@),
{
    let n: usize = s.len();
    let mut out: Vec<char> = Vec::new();
    let mut i: usize = 0;
    assert(s@.skip(0) =~= s@);
    while i < n
        invariant
            i <= n,
            n == s@.len(),
            out@ + unix_newlines(s@.skip(i as int)) == unix_newlines(s@),
        decreases n - i,
    {
        let ghost rest = s@.skip(i as int);
        let ghost before = out@;
        if n - i >= 2 && s[i] == '\r' && s[i + 1] == '\n' {
            out.push('\n');
            proof {
                assert(rest.skip(2) =~= s@.skip(i + 2));
                assert(before.push('\n') + unix_newlines(s@.skip(i + 2)) =~= before
                    + unix_newlines(rest));
            }
            i += 2;
        } else {
            out.push(s[i]);
            proof {
                assert(rest.skip(1) =~= s@.skip(i + 1));
                assert(before.push(s@[i as int]) + unix_newlines(s@.skip(i + 1)) =~= before
                    + unix_newlines(rest));
            }
            i += 1;
        }
    }
    assert(out@ + unix_newlines(s@.skip(n as int)) =~= out@);
    out
}

/// Appends the characters of `more` to `out`.
pub fn append_chars(out: &mut Vec<char>, more: &[char])
    ensures
        final(out)@ == old(out)@ + more@,
{
    let n: usize = more.len();
    let mut i: usize = 0;
    assert(old(out)@ + more@.subrange(0, 0) =~= old(out)@);
    while i < n
        invariant
            i <= n,
            n == more@.len(),
            out@ == old(out)@ + more@.subrange(0, i as int),
        decreases n - i,
    {
        out.push(more[i]);
        assert(old(out)@ + more@.subrange(0, i + 1) =~= (old(out)@ + more@.subrange(
            0,
            i as int,
        )).push(more@[i as int]));
        i += 1;
    }
    assert(more@.subrange(0, n as int) =~= more@);
}

/// The character of the decimal digit `d`.
fn digit(d: u32) -> (c: char)
    requires
        d < 10,
    ensures
        c == digit_char(d as int),
{
    if d == 0 {
        '0'
    } else if d == 1 {
        '1'
    } else if d == 2 {
        '2'
    } else if d == 3 {
        '3'
    } else if d == 4 {
        '4'
    } else if d == 5 {
        '5'
    } else if d == 6 {
        '6'
    } else if d == 7 {
        '7'
    } else if d == 8 {
        '8'
    } else {
        '9'
    }
}

/// Appends the decimal digits of `n` to `out`.
pub fn push_decimal(n: u32, out: &mut Vec<char>)
    ensures
        final(out)@ == old(out)@ + decimal(n as nat),
    decreases n,
{
    if n >= 10 {
        push_decimal(n / 10, out);
    }
    out.push(digit(n % 10));
    assert(out@ =~= old(out)@ + decimal(n as nat));
}

/// The message for a listing that gave nothing although the tool reported a
/// positive exit code.
pub fn describe_failure(code: u32, stderr: &[char], stdout: &[char]) -> (msg: String)
    ensures
        msg@ == failure_message(code as nat, stderr@, stdout@),
{
    let mut out: Vec<char> = Vec::new();
    let head = chars_of("7zz failed with code ");
    let mid = chars_of(". Stderr: '");
    let trace = chars_of("'. Stdout trace: '");
    let tail = chars_of("'");
    let shown = trim(stdout);
    let excerpt = if shown.len() <= 200 {
        shown
    } else {
        slice_subrange(shown, 0, 200)
    };
    append_chars(&mut out, head.as_slice());
    push_decimal(code, &mut out);
    append_chars(&mut out, mid.as_slice());
    append_chars(&mut out, trim(stderr));
    append_chars(&mut out, trace.as_slice());
    append_chars(&mut out, excerpt);
    append_chars(&mut out, tail.as_slice());
    assert(out@ =~= failure_message(code as nat, stderr@, stdout@));
    string_of(out.as_slice())
}

/// Judges one run of the listing tool from what it wrote to standard output
/// and to standard error and from its exit code.
pub fn analyze_archive(stdout: &str, stderr: &str, exit_code: i32) -> (r: Result<
    ArchiveInfo,
    String,
>)
    ensures
        match r {
            Ok(info) => info.well_formed() && verdict(stdout@, stderr@, exit_code as int) == Ok::<
                ArchiveInfoView,
                Seq<char>,
            >(info@),
            Err(e) => verdict(stdout@, stderr@, exit_code as int) == Err::<
                ArchiveInfoView,
                Seq<char>,
            >(e@),
        },
{
    let raw = chars_of(stdout);
    let text = normalize_newlines(raw.as_slice());
    let info = parse_listing(text.as_slice());
    if info.file_type.as_str().unicode_len() > 0 {
        Ok(info)
    } else if exit_code > 0 {
        let errors = chars_of(stderr);
        Err(describe_failure(exit_code as u32, errors.as_slice(), text.as_slice()))
    } else {
        Err(String::from_str("Empty output from 7zz"))
    }
}

} // verus!
