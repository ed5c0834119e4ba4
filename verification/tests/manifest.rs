use rbx_downloader::common::errors::ManifestFormatError;
use rbx_downloader::common::text::{ends_with, matches_at, parse_u64, same_text, split_lines, starts_with};
use rbx_downloader::common::{parse_manifest, Downloader, RbxPackage};

fn std_lines(text: &str) -> Vec<String> {
    text.lines().map(|l| l.to_string()).collect()
}

fn manifest_of(groups: usize, extra: usize) -> String {
    let mut text = String::from("v0\n");
    for i in 0..groups {
        text.push_str(&format!("pkg{}.zip\nhash{}\n{}\n{}\n", i, i, 10 * i + 1, 20 * i + 2));
    }
    for i in 0..extra {
        text.push_str(&format!("extra{}\n", i));
    }
    text
}

#[test]
fn parse_u64_reads_plain_numbers() {
    assert_eq!(parse_u64("0"), Some(0u64));
    assert_eq!(parse_u64("7"), Some(7u64));
    assert_eq!(parse_u64("123456"), Some(123456u64));
    assert_eq!(parse_u64("000042"), Some(42u64));
    assert_eq!(parse_u64("+15"), Some(15u64));
}

#[test]
fn parse_u64_reads_up_to_the_largest_value() {
    assert_eq!(parse_u64("18446744073709551615"), Some(u64::MAX));
    assert_eq!(parse_u64("00000000000018446744073709551615"), Some(u64::MAX));
    assert_eq!(parse_u64("18446744073709551616"), None);
    assert_eq!(parse_u64("99999999999999999999999"), None);
}

#[test]
fn parse_u64_refuses_what_is_no_number() {
    assert_eq!(parse_u64(""), None);
    assert_eq!(parse_u64("+"), None);
    assert_eq!(parse_u64("-1"), None);
    assert_eq!(parse_u64("++1"), None);
    assert_eq!(parse_u64("12a"), None);
    assert_eq!(parse_u64(" 12"), None);
    assert_eq!(parse_u64("12 "), None);
    assert_eq!(parse_u64("1_000"), None);
    assert_eq!(parse_u64("١٢"), None);
}

#[test]
fn parse_u64_agrees_with_the_standard_parser() {
    let samples = vec![
        "0", "1", "+1", "-0", "", "+", "42", "4x2", "18446744073709551615",
        "18446744073709551616", "0000", "+0009", "9 ", "\t9", "1e3", "0x10",
    ];
    for s in samples {
        assert_eq!(parse_u64(s), s.parse::<u64>().ok(), "on {:?}", s);
    }
}

#[test]
fn split_lines_splits_at_line_feeds() {
    assert_eq!(split_lines("a\nb\nc"), vec!["a".to_string(), "b".to_string(), "c".to_string()]);
    assert_eq!(split_lines("a\nb\n"), vec!["a".to_string(), "b".to_string()]);
    assert_eq!(split_lines(""), Vec::<String>::new());
    assert_eq!(split_lines("\n"), vec!["".to_string()]);
    assert_eq!(split_lines("\n\n"), vec!["".to_string(), "".to_string()]);
    assert_eq!(split_lines("one"), vec!["one".to_string()]);
}

#[test]
fn split_lines_drops_carriage_return_before_line_feed_only() {
    assert_eq!(split_lines("a\r\nb\r\n"), vec!["a".to_string(), "b".to_string()]);
    assert_eq!(split_lines("a\rb\n"), vec!["a\rb".to_string()]);
    assert_eq!(split_lines("a\r\r\n"), vec!["a\r".to_string()]);
    assert_eq!(split_lines("a\nb\r"), vec!["a".to_string(), "b\r".to_string()]);
    assert_eq!(split_lines("\r\n"), vec!["".to_string()]);
}

#[test]
fn split_lines_agrees_with_the_standard_splitter() {
    let samples = vec![
        "", "\n", "a", "a\n", "a\nb", "a\r\nb", "\r", "\r\n\r\n", "x\n\ny\n", "é\nü\r\n", "a\r",
        "v0\r\nf.zip\r\nabc\r\n1\r\n2\r\n",
    ];
    for s in samples {
        assert_eq!(split_lines(s), std_lines(s), "on {:?}", s);
    }
}

#[test]
fn text_matching() {
    assert!(same_text("abc", "abc"));
    assert!(!same_text("abc", "abd"));
    assert!(!same_text("abc", "ab"));
    assert!(same_text("", ""));
    assert!(starts_with("version-1", "version-"));
    assert!(!starts_with("versio", "version-"));
    assert!(starts_with("x", ""));
    assert!(ends_with("setup.exe", ".exe"));
    assert!(!ends_with("exe", ".exe"));
    assert!(!ends_with("setup.exe.zip", ".exe"));
    assert!(matches_at("héllo", 2, "ll"));
    assert!(!matches_at("héllo", 4, "lo"));
    assert!(matches_at("abc", 3, ""));
    assert!(!matches_at("abc", 4, ""));
    assert!(!matches_at("abc", usize::MAX, "a"));
}

#[test]
fn package_from_four_fields() {
    let p = RbxPackage::from(&["content-sounds.zip", "0123abcd", "100", "250"]).unwrap();
    assert_eq!(p.filename(), "content-sounds.zip");
    assert_eq!(p.md5(), "0123abcd");
    assert_eq!(p.compressed_size(), 100u64);
    assert_eq!(p.decompressed_size(), 250u64);
}

#[test]
fn package_from_ignores_fields_after_the_fourth() {
    let p = RbxPackage::from(&["a", "b", "1", "2", "junk"]).unwrap();
    assert_eq!(p, RbxPackage::from(&["a", "b", "1", "2"]).unwrap());
}

#[test]
fn package_from_refuses_bad_sizes() {
    assert!(RbxPackage::from(&["a", "b", "x", "2"]).is_err());
    assert!(RbxPackage::from(&["a", "b", "1", ""]).is_err());
    assert!(RbxPackage::from(&["a", "b", "-1", "2"]).is_err());
    assert!(RbxPackage::from(&["a", "b", "1", "18446744073709551616"]).is_err());
}

#[test]
fn manifest_of_whole_groups_gives_every_record_in_order() {
    for k in 0..6usize {
        let packages = parse_manifest(&manifest_of(k, 0)).unwrap();
        assert_eq!(packages.len(), k);
        for (i, p) in packages.iter().enumerate() {
            assert_eq!(p.filename(), format!("pkg{}.zip", i));
            assert_eq!(p.md5(), format!("hash{}", i));
            assert_eq!(p.compressed_size(), (10 * i + 1) as u64);
            assert_eq!(p.decompressed_size(), (20 * i + 2) as u64);
        }
    }
}

#[test]
fn manifest_with_partial_group_drops_it() {
    for k in 0..4usize {
        let whole = parse_manifest(&manifest_of(k, 0)).unwrap();
        for r in 1..4usize {
            let partial = parse_manifest(&manifest_of(k, r)).unwrap();
            assert_eq!(partial, whole);
        }
    }
}

#[test]
fn manifest_partial_group_with_bad_number_is_still_dropped() {
    let packages = parse_manifest("v0\na.zip\nh\n1\n2\nb.zip\nh\nnot-a-number").unwrap();
    assert_eq!(packages.len(), 1);
    assert_eq!(packages[0].filename(), "a.zip");
}

#[test]
fn manifest_with_bad_number_is_refused() {
    assert!(parse_manifest("v0\na.zip\nh\n1\n2\nb.zip\nh\n3\nx\n").is_err());
    assert!(parse_manifest("v0\na.zip\nh\n\n2\n").is_err());
}

#[test]
fn manifest_without_marker_line_is_refused() {
    assert!(parse_manifest("").is_err());
    assert_eq!(parse_manifest("v0").unwrap().len(), 0);
    assert_eq!(parse_manifest("\n").unwrap().len(), 0);
}

#[test]
fn manifest_marker_line_is_not_read_as_a_field() {
    let packages = parse_manifest("12\nname\nsum\n3\n4\n").unwrap();
    assert_eq!(packages.len(), 1);
    assert_eq!(packages[0].filename(), "name");
    assert_eq!(packages[0].compressed_size(), 3u64);
}

#[test]
fn manifest_with_windows_line_ends() {
    let packages = parse_manifest("v0\r\na.zip\r\nabc\r\n10\r\n20\r\n").unwrap();
    assert_eq!(packages.len(), 1);
    assert_eq!(packages[0].filename(), "a.zip");
    assert_eq!(packages[0].md5(), "abc");
    assert_eq!(packages[0].decompressed_size(), 20u64);
}

#[test]
fn populate_appends_packages() {
    let mut d = Downloader {
        cdn: "https://cdn".to_string(),
        version_hash: "version-1".to_string(),
        roblox_packages: vec![],
    };
    assert!(d.populate(&manifest_of(2, 0)).is_ok());
    assert_eq!(d.roblox_packages.len(), 2);
    assert!(d.populate(&manifest_of(1, 2)).is_ok());
    assert_eq!(d.roblox_packages.len(), 3);
    assert_eq!(d.roblox_packages[2].filename(), "pkg0.zip");
    assert_eq!(d.cdn, "https://cdn");
    assert_eq!(d.version_hash, "version-1");
}

#[test]
fn populate_leaves_distribution_alone_on_failure() {
    let mut d = Downloader {
        cdn: "https://cdn".to_string(),
        version_hash: "version-1".to_string(),
        roblox_packages: vec![],
    };
    assert!(d.populate(&manifest_of(1, 0)).is_ok());
    let r = d.populate("v0\na.zip\nh\n1\n2\nb.zip\nh\nbad\n4\n");
    assert!(r.is_err());
    assert_eq!(d.roblox_packages.len(), 1);
    assert_eq!(d.roblox_packages[0].filename(), "pkg0.zip");
}

#[test]
fn manifest_error_text() {
    assert_eq!(ManifestFormatError.to_string(), "The rbxPkgManifest is malformed");
}
