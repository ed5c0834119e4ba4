use rbx_downloader::cli::{parse_args, Invocation};
use rbx_downloader::legacy_downloader::{version_url, Version};
use rbx_downloader::modern_downloader::errors::NoCdnError;
use rbx_downloader::modern_downloader::{candidates, fastest, find_fastest, Probe, STATUS_OK};

fn probe(url: &str, latency: Option<u128>) -> Probe {
    Probe { url: url.to_string(), latency }
}

fn args(words: &[&str]) -> Vec<String> {
    words.iter().map(|w| w.to_string()).collect()
}

#[test]
fn fastest_probe_wins() {
    let probes = vec![probe("a", Some(30)), probe("b", Some(10)), probe("c", Some(20))];
    assert_eq!(fastest(&probes), Some(1usize));
    assert_eq!(find_fastest(&probes), Some("b".to_string()));
}

#[test]
fn failed_probes_are_left_out() {
    let probes = vec![probe("a", None), probe("b", Some(500)), probe("c", None), probe("d", Some(900))];
    assert_eq!(fastest(&probes), Some(1usize));
    assert_eq!(find_fastest(&probes), Some("b".to_string()));
    let late = vec![probe("a", None), probe("b", None), probe("c", Some(u128::MAX))];
    assert_eq!(find_fastest(&late), Some("c".to_string()));
}

#[test]
fn equally_fast_probes_go_to_the_first_seen() {
    let probes = vec![probe("a", Some(7)), probe("b", Some(5)), probe("c", Some(5)), probe("d", Some(5))];
    assert_eq!(fastest(&probes), Some(1usize));
    assert_eq!(find_fastest(&probes), Some("b".to_string()));
}

#[test]
fn no_reachable_endpoint() {
    assert_eq!(fastest(&vec![]), None);
    assert_eq!(find_fastest(&vec![]), None);
    let probes = vec![probe("a", None), probe("b", None)];
    assert_eq!(find_fastest(&probes), None);
    assert!(rbx_downloader::modern_downloader::From(&probes, "version-1").is_err());
    assert_eq!(NoCdnError.to_string(), "The cdn could not be found");
}

#[test]
fn modern_distribution_uses_the_fastest_endpoint() {
    let probes = vec![probe("https://slow", Some(9)), probe("https://fast", Some(2))];
    let d = rbx_downloader::modern_downloader::From(&probes, "version-abc").unwrap();
    assert_eq!(d.cdn, "https://fast");
    assert_eq!(d.version_hash, "version-abc");
    assert!(d.roblox_packages.is_empty());
}

#[test]
fn candidate_endpoints() {
    assert_eq!(
        candidates(),
        vec![
            "https://setup.rbxcdn.com".to_string(),
            "https://s3.amazonaws.com/setup.roblox.com".to_string(),
            "https://setup-ak.rbxcdn.com".to_string(),
            "https://setup-hw.rbxcdn.com".to_string(),
            "https://setup-cfly.rbxcdn.com".to_string(),
            "https://roblox-setup.cachefly.net".to_string(),
        ]
    );
}

#[test]
fn legacy_family() {
    assert_eq!(Version::GAMETEST2.to_string(), "gametest2");
    assert_eq!(Version::GAMETEST2.to_url(), "http://setup.gametest2.robloxlabs.com");
    assert_eq!(version_url("http://x"), "http://x/version");
    let d = rbx_downloader::legacy_downloader::From("version-42");
    assert_eq!(d.cdn, "http://setup.gametest2.robloxlabs.com");
    assert_eq!(d.version_hash, "version-42");
    assert!(d.roblox_packages.is_empty());
}

#[test]
fn command_line_without_version() {
    assert_eq!(parse_args(&args(&[])), Ok(Invocation::Usage));
    assert_eq!(parse_args(&args(&["exe"])), Ok(Invocation::ModernLatest));
    assert_eq!(parse_args(&args(&["exe", "live"])), Ok(Invocation::ModernLatest));
    assert_eq!(parse_args(&args(&["exe", "gametest2"])), Ok(Invocation::LegacyLatest));
    assert!(parse_args(&args(&["exe", "Live"])).is_err());
    assert!(parse_args(&args(&["exe", ""])).is_err());
}

#[test]
fn command_line_with_version() {
    assert_eq!(
        parse_args(&args(&["exe", "live", "version-abc"])),
        Ok(Invocation::ModernVersion("version-abc".to_string()))
    );
    assert_eq!(
        parse_args(&args(&["exe", "gametest2", "version-abc", "more"])),
        Ok(Invocation::LegacyVersion("version-abc".to_string()))
    );
    assert_eq!(
        parse_args(&args(&["exe", "live", "version-"])),
        Ok(Invocation::ModernVersion("version-".to_string()))
    );
    assert!(parse_args(&args(&["exe", "live", "abc"])).is_err());
    assert!(parse_args(&args(&["exe", "live", "Version-abc"])).is_err());
    assert!(parse_args(&args(&["exe", "other", "version-abc"])).is_err());
    assert!(parse_args(&args(&["exe", "other", "abc"])).is_err());
}

#[test]
fn only_a_plain_success_counts_as_an_answer() {
    assert_eq!(STATUS_OK, 200u16);
    assert_eq!(Probe::new("a".to_string(), Some(200), 17).latency, Some(17u128));
    assert_eq!(Probe::new("a".to_string(), Some(204), 17).latency, None);
    assert_eq!(Probe::new("a".to_string(), Some(301), 17).latency, None);
    assert_eq!(Probe::new("a".to_string(), Some(404), 17).latency, None);
    assert_eq!(Probe::new("a".to_string(), None, 17).latency, None);
    assert_eq!(Probe::new("a".to_string(), Some(200), 0).url, "a");
}
