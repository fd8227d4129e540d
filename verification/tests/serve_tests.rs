use torexpo::clock::Timestamp;
use torexpo::paths::{contains, has_prefix, within_root};
use torexpo::serve::{plan_for, serve_file, serve_file_at, HttpError};
use torexpo::token::{mint_at, DownloadLinkStructure, TokenError};
use torexpo::torrent_file::{TorrentFile, DOWNLOAD_PREFIX};

const SECRET: &str = "download key";

fn file(name: &str) -> TorrentFile {
    TorrentFile {
        length: 10,
        name: name.to_string(),
        dnd: 0,
        is_renamed: false,
        first_piece: 0,
        last_piece: 1,
        offset: 0,
    }
}

fn token_of(path: &str) -> &str {
    path.strip_prefix("/download/").expect("the path begins with the prefix")
}

#[test]
fn valid_token_is_served_under_the_file_name() {
    let now = Timestamp::new(1_700_000_000, 0);
    let path = mint_at(SECRET, "/download/", "downloads/linux/alpine.iso", Some(60), now).unwrap();
    let plan = serve_file_at(SECRET, "downloads", token_of(&path), now).unwrap();
    assert_eq!(plan.path, "downloads/linux/alpine.iso");
    assert_eq!(plan.content_disposition.as_deref(), Some("filename=\"alpine.iso\""));
}

#[test]
fn malformed_token_is_a_bad_request() {
    let now = Timestamp::new(1_700_000_000, 0);
    let refused = serve_file_at(SECRET, "downloads", "garbage", now).unwrap_err();
    assert_eq!(refused.status, 400);
    assert_eq!(refused.body, "invalid download link");
}

#[test]
fn expired_token_is_unauthorized() {
    let now = Timestamp::new(1_700_000_000, 0);
    let path = mint_at(SECRET, "/download/", "downloads/a", Some(60), now).unwrap();
    let later = Timestamp::new(1_700_000_061, 0);
    let refused = serve_file_at(SECRET, "downloads", token_of(&path), later).unwrap_err();
    assert_eq!(refused.status, 401);
    assert_eq!(refused.body, "Expired download link");
}

#[test]
fn file_outside_the_root_is_not_found() {
    let now = Timestamp::new(1_700_000_000, 0);
    for outside in ["/etc/passwd", "downloads/../secret", "downloadsx/a", "download", "other/a", ""] {
        let path = mint_at(SECRET, "/download/", outside, None, now).unwrap();
        let refused = serve_file_at(SECRET, "downloads", token_of(&path), now).unwrap_err();
        assert_eq!(refused.status, 404, "{outside}");
        assert_eq!(refused.body, "file not found");
    }
}

#[test]
fn token_errors_map_to_their_replies() {
    let bad = HttpError::from_token_error(TokenError::Malformed);
    assert_eq!((bad.status, bad.body.as_str()), (400, "invalid download link"));
    let late = HttpError::from_token_error(TokenError::Expired);
    assert_eq!((late.status, late.body.as_str()), (401, "Expired download link"));
    let gone = HttpError::not_found();
    assert_eq!((gone.status, gone.body.as_str()), (404, "file not found"));
}

#[test]
fn plan_names_the_last_step_of_the_path() {
    let link = DownloadLinkStructure { file: "root/a/b/c.tar.gz".to_string(), expiry: None };
    let plan = plan_for("root", link).unwrap();
    assert_eq!(plan.path, "root/a/b/c.tar.gz");
    assert_eq!(plan.content_disposition.as_deref(), Some("filename=\"c.tar.gz\""));
    let link = DownloadLinkStructure { file: "root/dir/".to_string(), expiry: None };
    let plan = plan_for("root/", link).unwrap();
    assert_eq!(plan.content_disposition.as_deref(), Some("filename=\"dir\""));
}

#[test]
fn failure_reply_passes_the_diagnostic_on() {
    let reply = HttpError::io_failure("disk on fire", "downloads/a.iso");
    assert_eq!(reply.status, 500);
    assert_eq!(reply.body, "Something went wrong: disk on fire");
}

#[test]
fn failure_reply_does_not_give_the_path_away() {
    let reply = HttpError::io_failure("cannot read downloads/a.iso: denied", "downloads/a.iso");
    assert_eq!(reply.status, 500);
    assert_eq!(reply.body, "Something went wrong");
    let reply = HttpError::io_failure("denied", "went");
    assert_eq!(reply.body, "");
    let reply = HttpError::io_failure("cannot read : denied", "");
    assert_eq!(reply.body, "Something went wrong: cannot read : denied");
    for (diagnostic, path) in [("x", "g: x"), ("abc", "wrong: a"), ("", "Something went wrong: ")] {
        let reply = HttpError::io_failure(diagnostic, path);
        assert!(!reply.body.contains(path), "{:?} holds {:?}", reply.body, path);
    }
}

#[test]
fn paths_below_the_root() {
    let below = |root: &str, path: &str| within_root(root.as_bytes(), path.as_bytes());
    assert!(below("downloads", "downloads/a"));
    assert!(below("downloads", "downloads/a/b.iso"));
    assert!(below("downloads/", "downloads/a"));
    assert!(below("/srv/files", "/srv/files/x..y/..z/a..b"));
    assert!(below("", "a/b"));
    assert!(below(".", "./a"));
    assert!(below("downloads", "downloads/..."));
    assert!(below("downloads", "downloads"));
    assert!(below("downloads", "downloads/"));
    assert!(below("downloads/", "downloads/"));
    assert!(below("", ""));
    assert!(below("downloads", "downloads//a"));
    assert!(!below("downloads/", "downloads"));
    assert!(!below("downloads", "downloadsa"));
    assert!(!below("downloads", "download"));
    assert!(!below("downloads", "downloads/.."));
    assert!(!below("downloads", "downloads/../a"));
    assert!(!below("downloads", "downloads/a/../../b"));
    assert!(!below("downloads", "downloads/a/.."));
    assert!(!below("downloads/", "downloads/../a"));
    assert!(!below("", "/etc/passwd"));
    assert!(!below("", "../a"));
    assert!(!below("a", "b/a/c"));
}

#[test]
fn substring_search() {
    let has = |text: &str, needle: &str| contains(text.as_bytes(), needle.as_bytes());
    assert!(has("hello world", "lo wo"));
    assert!(has("hello", "hello"));
    assert!(has("hello", ""));
    assert!(has("", ""));
    assert!(has("aab", "ab"));
    assert!(has("hello", "o"));
    assert!(!has("hello", "hello!"));
    assert!(!has("", "a"));
    assert!(!has("abcabd", "abe"));
    assert!(has_prefix(b"abc", b"ab"));
    assert!(has_prefix(b"abc", b""));
    assert!(!has_prefix(b"abc", b"bc"));
    assert!(!has_prefix(b"ab", b"abc"));
}

#[test]
fn download_link_needs_the_file_on_disk() {
    let f = file("linux/alpine.iso");
    let now = Timestamp::new(1_700_000_000, 0);
    assert_eq!(f.download_link_at(SECRET, "downloads", false, Some(60), now), None);
    assert_eq!(f.download_link(SECRET, "downloads", false, None), None);
}

#[test]
fn download_link_leads_back_to_the_file() {
    let f = file("linux/alpine.iso");
    assert_eq!(f.path_in("downloads"), "downloads/linux/alpine.iso");
    assert_eq!(DOWNLOAD_PREFIX, "/download/");
    let now = Timestamp::new(1_700_000_000, 0);
    let link = f.download_link_at(SECRET, "downloads", true, Some(60), now).unwrap();
    assert_eq!(Some(link.clone()), mint_at(SECRET, "/download/", "downloads/linux/alpine.iso", Some(60), now));
    let plan = serve_file_at(SECRET, "downloads", token_of(&link), now).unwrap();
    assert_eq!(plan.path, "downloads/linux/alpine.iso");
    assert_eq!(plan.content_disposition.as_deref(), Some("filename=\"alpine.iso\""));
}

#[test]
fn download_link_with_an_ordinary_expiry_is_minted() {
    let f = file("a.bin");
    for secs in [1, 60, 86_400] {
        let link = f.download_link(SECRET, "downloads", true, Some(secs)).unwrap();
        assert!(link.starts_with("/download/"));
        let plan = serve_file(SECRET, "downloads", token_of(&link)).unwrap();
        assert_eq!(plan.path, "downloads/a.bin");
    }
}

#[test]
fn download_link_reads_the_clock() {
    let f = file("a.bin");
    let link = f.download_link(SECRET, "downloads", true, Some(3600)).unwrap();
    let plan = serve_file(SECRET, "downloads", token_of(&link)).unwrap();
    assert_eq!(plan.path, "downloads/a.bin");
    let link = f.download_link(SECRET, "downloads", true, Some(0)).unwrap();
    let minted = std::time::Instant::now();
    while minted.elapsed() < std::time::Duration::from_millis(5) {}
    assert_eq!(serve_file(SECRET, "downloads", token_of(&link)).unwrap_err().status, 401);
}

#[test]
fn leap_second_round_trips_where_a_link_is_minted() {
    let now = Timestamp::new(1_483_228_799, 1_500_000_000);
    if let Some(path) = mint_at(SECRET, "", "f", Some(0), now) {
        let link = torexpo::token::redeem_at(SECRET, &path, now).unwrap();
        assert_eq!(link.expiry, Some(now));
    }
}
