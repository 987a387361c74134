//! Parsing of the text that the archive listing tool prints: blocks of
//! `Key = Value` lines, separated by blank lines.

use vstd::prelude::*;
use vstd::slice::slice_subrange;
use vstd::string::StringExecFns;
use crate::text::{
    chars_of, contains, ends_with_fold, eq_fold, equals_fold, find_char, has_substring,
    has_suffix_fold, run_len, same_chars, string_of, trim, trimmed,
};

verus! {

/// What the listing tool reports of one archive.
#[derive(Debug, Clone)]
pub struct ArchiveInfo {
    /// The format tag, such as "Zip", "Rar" or "Rar5".
    pub file_type: String,
    /// Whether the archive is compressed as one solid stream.
    pub is_solid: bool,
    /// Whether the archive level reports encryption.
    pub is_encrypted: bool,
    /// The number of entries that are named like an image.
    pub image_count: usize,
    /// Why the reader cannot open the archive, where it cannot.
    pub unsupported_reason: Option<String>,
}

/// The mathematical value of an `ArchiveInfo`.
pub ghost struct ArchiveInfoView {
    pub file_type: Seq<char>,
    pub is_solid: bool,
    pub is_encrypted: bool,
    pub image_count: nat,
    pub unsupported_reason: Option<Seq<char>>,
}

impl View for ArchiveInfo {
    type V = ArchiveInfoView;

    open spec fn view(&self) -> ArchiveInfoView {
        ArchiveInfoView {
            file_type: self.file_type@,
            is_solid: self.is_solid,
            is_encrypted: self.is_encrypted,
            image_count: self.image_count as nat,
            unsupported_reason: match self.unsupported_reason {
                Some(r) => Some(r@),
                None => None,
            },
        }
    }
}

impl ArchiveInfo {
    /// The reason follows from the format tag and the solidity alone.
    pub open spec fn well_formed(&self) -> bool {
        self@.unsupported_reason == reason_for(self@.file_type, self@.is_solid)
    }
}

/// Whether two newline characters stand at `i` and `i + 1`.
pub open spec fn gap_at(s: Seq<char>, i: int) -> bool {
    0 <= i && i + 1 < s.len() && s[i] == '\n' && s[i + 1] == '\n'
}

/// The length of the block that starts at `start`: the characters up to the
/// next blank-line separator, or up to the end of the text.
pub open spec fn block_len(s: Seq<char>, start: int) -> nat
    decreases s.len() - start,
{
    if start < 0 || start >= s.len() || gap_at(s, start) {
        0
    } else {
        1 + block_len(s, start + 1)
    }
}

/// The block that starts at `start`.
pub open spec fn block_at(s: Seq<char>, start: int) -> Seq<char> {
    s.subrange(start, start + block_len(s, start))
}

/// The position of the first `=` of a line, or its length where it has none.
pub open spec fn eq_pos(line: Seq<char>) -> int {
    run_len(line, 0, '=') as int
}

/// The key of a line: what stands before its first `=`, trimmed.
pub open spec fn line_key(line: Seq<char>) -> Seq<char> {
    trimmed(line.subrange(0, eq_pos(line)))
}

/// The value of a line: what stands after its first `=`, trimmed.
pub open spec fn line_value(line: Seq<char>) -> Seq<char> {
    trimmed(line.subrange(eq_pos(line) + 1, line.len() as int))
}

/// Whether a line gives `key` a value. A line without `=` or with an empty
/// key gives none.
pub open spec fn line_sets(line: Seq<char>, key: Seq<char>) -> bool {
    eq_pos(line) < line.len() && line_key(line).len() > 0 && line_key(line) == key
}

/// The value of `key` among the lines of `b` from `start` on, where `found`
/// is what the lines before gave it. A later line overrides an earlier one.
pub open spec fn lookup_from(
    b: Seq<char>,
    key: Seq<char>,
    start: int,
    found: Option<Seq<char>>,
) -> Option<Seq<char>>
    decreases b.len() - start,
{
    let end = start + run_len(b, start, '\n');
    let line = b.subrange(start, end);
    let now = if line_sets(line, key) {
        Some(line_value(line))
    } else {
        found
    };
    if end >= b.len() {
        now
    } else {
        lookup_from(b, key, end + 1, now)
    }
}

/// The value that the block `b` gives to `key`, if any.
pub open spec fn lookup(b: Seq<char>, key: Seq<char>) -> Option<Seq<char>> {
    lookup_from(b, key, 0, None)
}

/// Whether a path is named like an image: it ends in jpg, jpeg, png, webp or
/// gif after a dot, in any case.
pub open spec fn is_image_path(p: Seq<char>) -> bool {
    ends_with_fold(p, ".jpg"@) || ends_with_fold(p, ".jpeg"@) || ends_with_fold(p, ".png"@)
        || ends_with_fold(p, ".webp"@) || ends_with_fold(p, ".gif"@)
}

/// Whether the block `b` describes an entry that is named like an image.
pub open spec fn names_image(b: Seq<char>) -> bool {
    match lookup(b, "Path"@) {
        Some(p) => is_image_path(p),
        None => false,
    }
}

/// The first block at or after `start` that has a `Type` key.
pub open spec fn archive_block_from(s: Seq<char>, start: int) -> Option<Seq<char>>
    decreases s.len() - start,
{
    let end = start + block_len(s, start);
    if lookup(block_at(s, start), "Type"@) is Some {
        Some(block_at(s, start))
    } else if end + 2 > s.len() {
        None
    } else {
        archive_block_from(s, end + 2)
    }
}

/// The number of blocks at or after `start` that name an image.
pub open spec fn image_count_from(s: Seq<char>, start: int) -> nat
    decreases s.len() - start,
{
    let end = start + block_len(s, start);
    let here: nat = if names_image(block_at(s, start)) {
        1
    } else {
        0
    };
    if end + 2 > s.len() {
        here
    } else {
        here + image_count_from(s, end + 2)
    }
}

/// The archive-level block of a listing: the first block with a `Type` key.
pub open spec fn archive_block(s: Seq<char>) -> Option<Seq<char>> {
    archive_block_from(s, 0)
}

/// The number of image entries in a whole listing.
pub open spec fn image_count(s: Seq<char>) -> nat {
    image_count_from(s, 0)
}

/// The format tag of a listing: the `Type` of its archive-level block, or,
/// where no block has a `Type` key, what a search of the raw text for
/// "Type = Rar5" and then "Type = Rar" gives.
pub open spec fn file_type_of(s: Seq<char>) -> Seq<char> {
    match archive_block(s) {
        Some(b) => lookup(b, "Type"@).unwrap(),
        None => if contains(s, "Type = Rar5"@) {
            "Rar5"@
        } else if contains(s, "Type = Rar"@) {
            "Rar"@
        } else {
            Seq::empty()
        },
    }
}

/// Whether the archive-level block says `Solid = +`.
pub open spec fn solid_of(s: Seq<char>) -> bool {
    match archive_block(s) {
        Some(b) => lookup(b, "Solid"@) == Some("+"@),
        None => false,
    }
}

/// Whether the archive-level block says `Encrypted = +`.
pub open spec fn encrypted_of(s: Seq<char>) -> bool {
    match archive_block(s) {
        Some(b) => lookup(b, "Encrypted"@) == Some("+"@),
        None => false,
    }
}

/// Why the reader cannot open an archive of this format tag and solidity.
/// Nothing else enters.
pub open spec fn reason_for(file_type: Seq<char>, is_solid: bool) -> Option<Seq<char>> {
    if eq_fold(file_type, "rar5"@) {
        Some("RAR5 format"@)
    } else if is_solid {
        Some("Solid archive"@)
    } else {
        None
    }
}

/// The record that a listing stands for.
pub open spec fn listing_info(s: Seq<char>) -> ArchiveInfoView {
    ArchiveInfoView {
        file_type: file_type_of(s),
        is_solid: solid_of(s),
        is_encrypted: encrypted_of(s),
        image_count: image_count(s),
        unsupported_reason: reason_for(file_type_of(s), solid_of(s)),
    }
}

/// Whether the walk over the blocks from `start` arrives at the block that
/// starts at `at` without passing a block that has a `Type` key.
pub open spec fn reaches_without_type(s: Seq<char>, start: int, at: int) -> bool
    decreases s.len() - start,
{
    let end = start + block_len(s, start);
    start == at || (lookup(block_at(s, start), "Type"@) is None && end + 2 <= at && at
        <= s.len() && reaches_without_type(s, end + 2, at))
}

/// The first block with a `Type` key decides the format tag: whatever the
/// blocks after it hold, a `Type` key among them changes nothing.
pub proof fn first_type_wins(s: Seq<char>, start: int, at: int, tag: Seq<char>)
    requires
        0 <= start <= at <= s.len(),
        reaches_without_type(s, start, at),
        lookup(block_at(s, at), "Type"@) == Some(tag),
    ensures
        archive_block_from(s, start) == Some(block_at(s, at)),
        start == 0 ==> file_type_of(s) == tag,
    decreases s.len() - start,
{
    if start != at {
        let end = start + block_len(s, start);
        first_type_wins(s, end + 2, at, tag);
    }
}

/// A listing whose archive-level block says `Type = Rar5` and `Solid = +` is
/// read as a solid archive of format "Rar5" that the reader cannot open
/// because of its format.
pub proof fn rar5_solid_is_unsupported(s: Seq<char>)
    requires
        archive_block(s) is Some,
        lookup(archive_block(s).unwrap(), "Type"@) == Some("Rar5"@),
        lookup(archive_block(s).unwrap(), "Solid"@) == Some("+"@),
    ensures
        listing_info(s).file_type == "Rar5"@,
        listing_info(s).is_solid,
        listing_info(s).unsupported_reason == Some("RAR5 format"@),
{
    reveal_strlit("Rar5");
    reveal_strlit("rar5");
    assert(eq_fold("Rar5"@, "rar5"@));
}

/// An archive that is not solid and whose format tag is not "rar5", in any
/// case, is one that the reader can open.
pub proof fn other_formats_are_supported(s: Seq<char>)
    requires
        !eq_fold(file_type_of(s), "rar5"@),
        !solid_of(s),
    ensures
        listing_info(s).unsupported_reason is None,
{
}

/// An empty listing yields no format tag, no image and no reason.
pub proof fn empty_listing_yields_nothing(s: Seq<char>)
    requires
        s.len() == 0,
    ensures
        file_type_of(s).len() == 0,
        archive_block(s) is None,
        image_count(s) == 0,
{
    reveal_strlit("Type = Rar5");
    reveal_strlit("Type = Rar");
    assert(block_at(s, 0) =~= s);
    assert(lookup(s, "Type"@) is None);
    assert(lookup(s, "Path"@) is None);
    assert(!contains(s, "Type = Rar5"@));
    assert(!contains(s, "Type = Rar"@));
}

/// The index at which the block that starts at `start` ends.
pub fn find_block_end(s: &[char], start: usize) -> (end: usize)
    requires
        start <= s@.len(),
    ensures
        end == start + block_len(s@, start as int),
        start <= end <= s@.len(),
        end < s@.len() ==> end + 2 <= s@.len(),
{
    let n: usize = s.len();
    let mut i: usize = start;
    while i < n && !(n - i >= 2 && s[i] == '\n' && s[i + 1] == '\n')
        invariant
            start <= i <= n,
            n == s@.len(),
            i + block_len(s@, i as int) == start + block_len(s@, start as int),
        decreases n - i,
    {
        i += 1;
    }
    i
}

/// The value that the block `b` gives to `key`, if any.
pub fn lookup_value<'a>(b: &'a [char], key: &[char]) -> (r: Option<&'a [char]>)
    ensures
        match r {
            Some(v) => lookup(b@, key@) == Some(v@),
            None => lookup(b@, key@) is None,
        },
{
    let n: usize = b.len();
    let mut pos: usize = 0;
    let mut found: Option<&'a [char]> = None;
    loop
        invariant
            pos <= n,
            n == b@.len(),
            lookup(b@, key@) == lookup_from(
                b@,
                key@,
                pos as int,
                match found {
                    Some(v) => Some(v@),
                    None => None,
                },
            ),
        decreases n - pos,
    {
        let end = find_char(b, pos, '\n');
        let line = slice_subrange(b, pos, end);
        let eq = find_char(line, 0, '=');
        if eq < line.len() {
            let k = trim(slice_subrange(line, 0, eq));
            if k.len() > 0 && same_chars(k, key) {
                found = Some(trim(slice_subrange(line, eq + 1, line.len())));
            }
        }
        if end >= n {
            return found;
        }
        pos = end + 1;
    }
}

/// Whether a path is named like an image.
pub fn is_image_name(p: &[char]) -> (r: bool)
    ensures
        r == is_image_path(p@),
{
    let jpg = chars_of(".jpg");
    let jpeg = chars_of(".jpeg");
    let png = chars_of(".png");
    let webp = chars_of(".webp");
    let gif = chars_of(".gif");
    has_suffix_fold(p, jpg.as_slice()) || has_suffix_fold(p, jpeg.as_slice()) || has_suffix_fold(
        p,
        png.as_slice(),
    ) || has_suffix_fold(p, webp.as_slice()) || has_suffix_fold(p, gif.as_slice())
}

/// Why the reader cannot open an archive of this format tag and solidity.
pub fn unsupported_reason(file_type: &[char], is_solid: bool) -> (r: Option<String>)
    ensures
        match r {
            Some(t) => reason_for(file_type@, is_solid) == Some(t@),
            None => reason_for(file_type@, is_solid) is None,
        },
{
    let rar5 = chars_of("rar5");
    if equals_fold(file_type, rar5.as_slice()) {
        Some(String::from_str("RAR5 format"))
    } else if is_solid {
        Some(String::from_str("Solid archive"))
    } else {
        None
    }
}

/// Reads a listing, given as characters, into the record it stands for.
pub fn parse_listing(s: &[char]) -> (info: ArchiveInfo)
    ensures
        info@ == listing_info(s@),
        info.well_formed(),
{
    let type_key = chars_of("Type");
    let solid_key = chars_of("Solid");
    let encrypted_key = chars_of("Encrypted");
    let path_key = chars_of("Path");
    let plus = chars_of("+");
    let n: usize = s.len();
    let mut pos: usize = 0;
    let mut kind: Option<&[char]> = None;
    let mut is_solid = false;
    let mut is_encrypted = false;
    let mut count: usize = 0;
    let mut done = false;
    while !done
        invariant
            pos <= n,
            n == s@.len(),
            type_key@ == "Type"@,
            solid_key@ == "Solid"@,
            encrypted_key@ == "Encrypted"@,
            path_key@ == "Path"@,
            plus@ == "+"@,
            !done ==> 2 * count <= pos,
            !done ==> count + image_count_from(s@, pos as int) == image_count(s@),
            done ==> count == image_count(s@),
            match kind {
                Some(t) => archive_block(s@) is Some && lookup(
                    archive_block(s@).unwrap(),
                    "Type"@,
                ) == Some(t@),
                None => if done {
                    archive_block(s@) is None
                } else {
                    archive_block(s@) == archive_block_from(s@, pos as int)
                },
            },
            kind is None ==> !is_solid && !is_encrypted,
            kind is Some ==> is_solid == solid_of(s@) && is_encrypted == encrypted_of(s@),
        decreases n - pos + (if done { 0int } else { 1int }),
    {
        let end = find_block_end(s, pos);
        let block = slice_subrange(s, pos, end);
        assert(block@ == block_at(s@, pos as int));
        if kind.is_none() {
            if let Some(t) = lookup_value(block, type_key.as_slice()) {
                kind = Some(t);
                is_solid = match lookup_value(block, solid_key.as_slice()) {
                    Some(v) => same_chars(v, plus.as_slice()),
                    None => false,
                };
                is_encrypted = match lookup_value(block, encrypted_key.as_slice()) {
                    Some(v) => same_chars(v, plus.as_slice()),
                    None => false,
                };
            }
        }
        let image = match lookup_value(block, path_key.as_slice()) {
            Some(p) => is_image_name(p),
            None => false,
        };
        assert(image == names_image(block@));
        if image {
            count += 1;
        }
        if end >= n {
            done = true;
        } else {
            pos = end + 2;
        }
    }
    let file_type = match kind {
        Some(t) => string_of(t),
        None => {
            let rar5_line = chars_of("Type = Rar5");
            let rar_line = chars_of("Type = Rar");
            if has_substring(s, rar5_line.as_slice()) {
                String::from_str("Rar5")
            } else if has_substring(s, rar_line.as_slice()) {
                String::from_str("Rar")
            } else {
                String::new()
            }
        },
    };
    let tag = chars_of(file_type.as_str());
    let reason = unsupported_reason(tag.as_slice(), is_solid);
    ArchiveInfo {
        file_type,
        is_solid,
        is_encrypted,
        image_count: count,
        unsupported_reason: reason,
    }
}

/// Reads what the listing tool printed. Succeeds exactly when the listing
/// yields a format tag that is not empty.
pub fn parse_7zz_output(output: &str) -> (r: Result<ArchiveInfo, String>)
    ensures
        match r {
            Ok(info) => file_type_of(output@).len() > 0 && info@ == listing_info(output@)
                && info.well_formed(),
            Err(e) => file_type_of(output@).len() == 0 && e@ == "Empty output from 7zz"@,
        },
{
    let chars = chars_of(output);
    let info = parse_listing(chars.as_slice());
    if info.file_type.as_str().unicode_len() == 0 {
        Err(String::from_str("Empty output from 7zz"))
    } else {
        Ok(info)
    }
}

} // verus!
