use cloud_storage::encoding::{sha256, to_base64_url, to_hex};
use cloud_storage::paths::{child_of, file_name_of, parent_of, path_join};
use cloud_storage::text::{decimal_string, replace_all, str_equal};

#[test]
fn replace_all_replaces_every_occurrence() {
    assert_eq!(replace_all("{{a}}-{{a}}-{{b}}", "{{a}}", "x"), "x-x-{{b}}");
    assert_eq!(replace_all("aaa", "aa", "b"), "ba");
    assert_eq!(replace_all("no placeholder", "{{a}}", "x"), "no placeholder");
    assert_eq!(replace_all("", "{{a}}", "x"), "");
    assert_eq!(replace_all("— {{a}} —", "{{a}}", "имя"), "— имя —");
}

#[test]
fn decimal_string_formats_integers() {
    assert_eq!(decimal_string(0), "0");
    assert_eq!(decimal_string(15), "15");
    assert_eq!(decimal_string(2025), "2025");
    assert_eq!(decimal_string(-7), "-7");
    assert_eq!(decimal_string(i64::MIN), "-9223372036854775808");
    assert_eq!(decimal_string(i64::MAX), "9223372036854775807");
}

#[test]
fn str_equal_compares_characters() {
    assert!(str_equal("123456", "123456"));
    assert!(!str_equal("123456", "123457"));
    assert!(!str_equal("12345", "123456"));
}

#[test]
fn sha256_and_hex_match_known_digests() {
    assert_eq!(
        to_hex(&sha256(b"abc")),
        "ba7816bf8f01cfea414140de5dae2223b00361a396177a9cb410ff61f20015ad"
    );
    assert_eq!(to_hex(&[0x00, 0x0f, 0xa0, 0xff]), "000fa0ff");
    assert_eq!(to_hex(&[]), "");
}

#[test]
fn base64_url_without_padding() {
    assert_eq!(to_base64_url(b"hi"), "aGk");
    assert_eq!(to_base64_url(&[0xfb, 0xff, 0xfe]), "-__-");
    let bytes: Vec<u8> = (0u8..32).collect();
    assert_eq!(to_base64_url(&bytes), "AAECAwQFBgcICQoLDA0ODxAREhMUFRYXGBkaGxwdHh8");
}

#[test]
fn path_join_follows_pathbuf_join() {
    assert_eq!(path_join("/data", "user/docs"), "/data/user/docs");
    assert_eq!(path_join("/data/", "docs"), "/data/docs");
    assert_eq!(path_join("", "docs"), "docs");
    assert_eq!(path_join("/data", "/etc"), "/etc");
    assert_eq!(path_join("/data", ""), "/data/");
    for (base, p) in [("/data", "user/docs"), ("/data/", "docs"), ("", "docs"), ("/data", "/etc"), ("/data", "")] {
        let expected = std::path::Path::new(base).join(p).to_string_lossy().to_string();
        assert_eq!(path_join(base, p), expected);
    }
}

#[test]
fn storage_paths_of_children_and_parents() {
    assert_eq!(child_of("", "docs"), "docs");
    assert_eq!(child_of("root/docs", "a.txt"), "root/docs/a.txt");
    assert_eq!(parent_of("root/docs/a.txt"), "root/docs");
    assert_eq!(parent_of("docs"), "");
    assert_eq!(parent_of(&child_of("root/docs", "new")), "root/docs");
}

#[test]
fn file_name_follows_path_file_name() {
    let cases = ["/data/dir/a.txt", "a.txt", "/data/dir/", "/data/dir/.", "/data/..", "/", "", ".", "./", "a//b", "/data/dir/./"];
    for p in cases {
        let expected = std::path::Path::new(p).file_name().map(|n| n.to_string_lossy().to_string());
        assert_eq!(file_name_of(p), expected, "path {:?}", p);
    }
    assert_eq!(file_name_of("/data/dir/a.txt"), Some("a.txt".to_string()));
    assert_eq!(file_name_of("/data/.."), None);
}
