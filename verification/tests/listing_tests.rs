use comic_repacker::inspect::{analyze_archive, normalize_newlines, push_decimal};
use comic_repacker::listing::{is_image_name, lookup_value, parse_7zz_output, parse_listing};
use comic_repacker::text::{chars_of, has_substring, string_of, trim};

fn chars(s: &str) -> Vec<char> {
    s.chars().collect()
}

#[test]
fn test_parse_rar5_solid() {
    let output = r#"Listing archive: test.rar

--
Path = test.rar
Type = Rar5
Physical Size = 1048576
Solid = +
Blocks = 1
Multivolume = -
Volume = -
Encrypted = -

----------
Path = cover.jpg
Folder = -
Size = 123456
Packed Size = 123456
Modified = 2023-01-01 12:00:00
Attributes = A
CRC = ABCDEF01
Encrypted = -
Method = LZMA2:24

----------
Path = page01.png
Folder = -
"#;
    let info = parse_7zz_output(output).unwrap();
    assert_eq!(info.file_type, "Rar5");
    assert!(info.is_solid);
    assert!(!info.is_encrypted);
    assert_eq!(info.image_count, 2);
    assert_eq!(info.unsupported_reason, Some("RAR5 format".to_string()));
}

#[test]
fn short_rar5_listing_gives_the_full_record() {
    let output = "Listing archive: x.rar\n\nPath = x.rar\nType = Rar5\nSolid = +\n\nPath = cover.jpg\n\nPath = p1.png\n";
    let info = parse_7zz_output(output).unwrap();
    assert_eq!(info.file_type, "Rar5");
    assert!(info.is_solid);
    assert!(!info.is_encrypted);
    assert_eq!(info.image_count, 2);
    assert_eq!(info.unsupported_reason, Some("RAR5 format".to_string()));
}

#[test]
fn rar5_is_matched_in_any_case() {
    let info = parse_7zz_output("Type = RAR5\n").unwrap();
    assert_eq!(info.file_type, "RAR5");
    assert!(!info.is_solid);
    assert_eq!(info.unsupported_reason, Some("RAR5 format".to_string()));
}

#[test]
fn solid_rar4_is_unsupported_as_solid() {
    let info = parse_7zz_output("Path = a.rar\nType = Rar\nSolid = +\nEncrypted = +\n").unwrap();
    assert_eq!(info.file_type, "Rar");
    assert!(info.is_solid);
    assert!(info.is_encrypted);
    assert_eq!(info.image_count, 0);
    assert_eq!(info.unsupported_reason, Some("Solid archive".to_string()));
}

#[test]
fn plain_zip_is_supported() {
    let info = parse_7zz_output("Path = a.zip\nType = zip\nSolid = -\nEncrypted = +\n\nPath = 1.gif\n").unwrap();
    assert_eq!(info.file_type, "zip");
    assert!(!info.is_solid);
    assert!(info.is_encrypted);
    assert_eq!(info.image_count, 1);
    assert_eq!(info.unsupported_reason, None);
}

#[test]
fn first_type_block_wins() {
    let output = "Listing archive: a.cbz\n\nPath = a.cbz\nType = Zip\n\nPath = inner.rar\nType = Rar5\nSolid = +\nEncrypted = +\n";
    let info = parse_7zz_output(output).unwrap();
    assert_eq!(info.file_type, "Zip");
    assert!(!info.is_solid);
    assert!(!info.is_encrypted);
    assert_eq!(info.unsupported_reason, None);
}

#[test]
fn images_are_counted_across_the_whole_listing() {
    let output = "Path = early.JPG\n\nPath = b.Jpeg\n\nType = Zip\nPath = c.zip\n\nPath = d.webp\n\nPath = e.txt\n\nPath = f.PnG\n\nPath = g.gif.bak\n\nPath = jpg\n\nPath = .gif";
    let info = parse_7zz_output(output).unwrap();
    assert_eq!(info.file_type, "Zip");
    assert_eq!(info.image_count, 5);
}

#[test]
fn later_line_of_a_block_overrides_an_earlier_one() {
    let info = parse_7zz_output("Type = Zip\nPath = a.jpg\nPath = a.txt\nType = Rar\n").unwrap();
    assert_eq!(info.file_type, "Rar");
    assert_eq!(info.image_count, 0);
}

#[test]
fn keys_and_values_are_trimmed_and_spaces_are_optional() {
    let info = parse_7zz_output("  Type=Rar5  \n\tSolid\t=\t+\u{a0}\nPath=x=y.png\n = nokey\n").unwrap();
    assert_eq!(info.file_type, "Rar5");
    assert!(info.is_solid);
    assert_eq!(info.image_count, 1);
}

#[test]
fn raw_text_search_is_the_fallback() {
    let info = parse_7zz_output("xx Type = Rar5 yy").unwrap();
    assert_eq!(info.file_type, "Rar5");
    assert_eq!(info.unsupported_reason, Some("RAR5 format".to_string()));
    let info = parse_7zz_output("xx Type = Rar yy\n\nPath = a.jpg").unwrap();
    assert_eq!(info.file_type, "Rar");
    assert!(!info.is_solid);
    assert_eq!(info.image_count, 1);
    assert_eq!(info.unsupported_reason, None);
}

#[test]
fn empty_type_value_is_no_format_tag() {
    let r = parse_7zz_output("Type = \n\nType = Rar5\n");
    assert_eq!(r.unwrap_err(), "Empty output from 7zz");
}

#[test]
fn empty_output_is_an_error() {
    let e = parse_7zz_output("").unwrap_err();
    assert!(e.to_lowercase().contains("empty output"));
    let e = analyze_archive("", "", 0).unwrap_err();
    assert_eq!(e, "Empty output from 7zz");
    assert!(e.to_lowercase().contains("empty output"));
    let e = analyze_archive("no listing here", "ignored", -1).unwrap_err();
    assert_eq!(e, "Empty output from 7zz");
}

#[test]
fn usable_listing_succeeds_despite_exit_code() {
    let info = analyze_archive("Path = a.rar\r\nType = Rar\r\n\r\nPath = 1.jpg\r\n", "warning", 2).unwrap();
    assert_eq!(info.file_type, "Rar");
    assert_eq!(info.image_count, 1);
    assert_eq!(info.unsupported_reason, None);
}

#[test]
fn carriage_returns_before_line_feeds_are_removed() {
    assert_eq!(string_of(&normalize_newlines(&chars("a\r\nb\rc\n\r\n\r"))), "a\nb\rc\n\n\r");
    let info = analyze_archive("Listing\r\n\r\nType = Zip\r\n\r\nPath = a.png\r\n\r\nPath = b.png", "", 0).unwrap();
    assert_eq!(info.image_count, 2);
}

#[test]
fn failed_run_is_described() {
    let e = analyze_archive("  ERROR: cannot open\r\n", "  bad archive \n", 2).unwrap_err();
    assert_eq!(e, "7zz failed with code 2. Stderr: 'bad archive'. Stdout trace: 'ERROR: cannot open'");
    let long: String = "x".repeat(250);
    let e = analyze_archive(&long, "", 255).unwrap_err();
    assert_eq!(e, format!("7zz failed with code 255. Stderr: ''. Stdout trace: '{}'", "x".repeat(200)));
}

#[test]
fn decimal_digits_are_written_in_order() {
    let mut out = chars("n=");
    push_decimal(0, &mut out);
    push_decimal(7, &mut out);
    push_decimal(10, &mut out);
    push_decimal(4294967295, &mut out);
    assert_eq!(string_of(&out), "n=07104294967295");
}

#[test]
fn block_lookup_finds_the_last_value() {
    let b = chars("A = 1\nB=2\nA =  3 \nno equals\n = 4");
    assert_eq!(lookup_value(&b, &chars("A")).map(string_of), Some("3".to_string()));
    assert_eq!(lookup_value(&b, &chars("B")).map(string_of), Some("2".to_string()));
    assert_eq!(lookup_value(&b, &chars("C")).map(string_of), None);
    assert_eq!(lookup_value(&b, &chars("")).map(string_of), None);
}

#[test]
fn image_names_end_in_an_image_extension() {
    for name in ["a.jpg", "a.JPEG", "dir/b.png", "c.WebP", "d.gif", ".jpg"] {
        assert!(is_image_name(&chars(name)), "{}", name);
    }
    for name in ["a.jpg.txt", "jpg", "a.jp", "a.tiff", "", "a.gif "] {
        assert!(!is_image_name(&chars(name)), "{}", name);
    }
}

#[test]
fn text_helpers_agree_with_the_standard_library() {
    for s in ["", " ", "  a b \t\r\n", "\u{3000}x\u{2003}", "x", "\u{200b}x "] {
        assert_eq!(string_of(trim(&chars(s))), s.trim(), "{:?}", s);
        assert_eq!(chars_of(s), chars(s));
        assert_eq!(string_of(&chars(s)), s);
    }
    assert!(has_substring(&chars("abcabd"), &chars("abd")));
    assert!(has_substring(&chars("abc"), &chars("")));
    assert!(!has_substring(&chars("abcabd"), &chars("abe")));
    assert!(!has_substring(&chars("ab"), &chars("abc")));
}

#[test]
fn listing_of_characters_matches_listing_of_text() {
    let info = parse_listing(&chars("Type = 7z\nSolid = +"));
    assert_eq!(info.file_type, "7z");
    assert!(info.is_solid);
    assert_eq!(info.unsupported_reason, Some("Solid archive".to_string()));
    let info = parse_listing(&chars(""));
    assert_eq!(info.file_type, "");
    assert_eq!(info.image_count, 0);
    assert_eq!(info.unsupported_reason, None);
}
