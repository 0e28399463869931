use rusty_magisk::layout::{join, kernel_module_path, trim_newline};
use rusty_magisk::text::{chars_of, contains_text, substitute};

#[test]
fn substitution_puts_binary_path_everywhere() {
    let template = "service su magisk_bin_path --daemon\n    exec magisk_bin_path -x\n";
    let out = substitute(template, "magisk_bin_path", "/sbin/magisk");
    assert_eq!(
        out,
        "service su /sbin/magisk --daemon\n    exec /sbin/magisk -x\n"
    );
    assert!(!out.contains("magisk_bin_path"));
    assert_eq!(out.matches("/sbin/magisk").count(), 2);
}

#[test]
fn substitution_without_placeholder_keeps_text() {
    assert_eq!(substitute("on boot\n", "magisk_bin_path", "/sbin/magisk"), "on boot\n");
    assert_eq!(substitute("", "magisk_bin_path", "/sbin/magisk"), "");
}

#[test]
fn substitution_matches_std_replace() {
    let cases = [
        ("aaaa", "aa", "b"),
        ("abcabc", "bc", ""),
        ("xyz", "", "-"),
        ("", "", "-"),
        ("héllo wörld", "ö", "oe"),
        ("magisk_bin_path_bin_path", "magisk_bin_path", "/sbin/magisk"),
    ];
    for (t, p, r) in cases.iter() {
        assert_eq!(substitute(t, p, r), t.replace(p, r));
    }
}

#[test]
fn contains_finds_package_ids() {
    let registry = "com.android.shell 2000 0\ncom.topjohnwu.magisk 10123 0\n";
    assert!(contains_text(registry, "com.topjohnwu.magisk"));
    assert!(!contains_text("com.android.shell 2000 0\n", "com.topjohnwu.magisk"));
    assert!(!contains_text("", "com.topjohnwu.magisk"));
    assert!(contains_text("abc", ""));
    assert!(contains_text("abc", "abc"));
    assert!(!contains_text("ab", "abc"));
}

#[test]
fn chars_of_keeps_every_char() {
    assert_eq!(chars_of("añb"), vec!['a', 'ñ', 'b']);
    assert!(chars_of("").is_empty());
}

#[test]
fn paths_are_joined_with_one_separator() {
    assert_eq!(join("/sbin", "magisk"), "/sbin/magisk");
    assert_eq!(join("/system/bin", ".magisk/config"), "/system/bin/.magisk/config");
}

#[test]
fn release_loses_only_its_trailing_newline() {
    assert_eq!(trim_newline("4.14.117-perf\n"), "4.14.117-perf");
    assert_eq!(trim_newline("4.14.117-perf"), "4.14.117-perf");
    assert_eq!(trim_newline("a\n\n"), "a\n");
    assert_eq!(trim_newline(""), "");
}

#[test]
fn kernel_module_paths() {
    assert_eq!(
        kernel_module_path("4.14.117", "overlayfs/overlay.ko"),
        "/system/lib/modules/4.14.117/kernel/fs/overlayfs/overlay.ko"
    );
}
