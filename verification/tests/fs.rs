use cce_files::pages::browse::{read_directory, DirEntry};
use cce_files::services::fs::{
    comes_before, content_preview, describe_file_type, directory_preview, format_permissions, infer_file_type,
    modified_text, preview_name, read_directory_internal, wants_image_preview,
};

fn entry(name: &str, is_dir: bool) -> DirEntry {
    DirEntry {
        name: name.to_string(),
        path: format!("/d/{name}"),
        is_dir,
        size: 0,
        permissions: 0o644,
        modified: String::new(),
    }
}

#[test]
fn listing_puts_directories_first_then_sorts_by_name() {
    let listing = vec![entry("b.txt", false), entry("Zeta", true), entry("a.txt", false), entry("alpha", true)];
    let sorted = read_directory_internal(listing);
    let names: Vec<&str> = sorted.iter().map(|e| e.name.as_str()).collect();
    assert_eq!(names, vec!["alpha", "Zeta", "a.txt", "b.txt"]);
    let again = read_directory(vec![entry("B", false), entry("a", false)]);
    assert_eq!(again[0].name, "a");
}

#[test]
fn permissions_render_like_ls() {
    assert_eq!(format_permissions(0o40755), "drwxr-xr-x");
    assert_eq!(format_permissions(0o644), "-rw-r--r--");
    assert_eq!(format_permissions(0), "----------");
}

#[test]
fn file_types_by_extension() {
    assert_eq!(infer_file_type("docs", true), "Directory");
    assert_eq!(infer_file_type("main.rs", false), "Rust source");
    assert_eq!(infer_file_type("weird", false), "File");
}

#[test]
fn file_type_line_mentions_mime_and_application() {
    let mime = Some("text/plain".to_string());
    let app = Some("Editor".to_string());
    assert_eq!(describe_file_type("notes.txt", false, &mime, &app), "Plain text (text/plain) [Open with: Editor]");
    assert_eq!(describe_file_type("notes.txt", false, &mime, &None), "Plain text (text/plain)");
    assert_eq!(describe_file_type("notes.txt", false, &None, &None), "Plain text");
    assert_eq!(describe_file_type("dir", true, &mime, &app), "Directory");
}

#[test]
fn directory_preview_lists_entries() {
    let listing = vec![("sub".to_string(), true), ("a.txt".to_string(), false)];
    assert_eq!(directory_preview(&listing), "📁 sub\n📄 a.txt");
    assert_eq!(directory_preview(&Vec::new()), "[Empty directory]");
    let many: Vec<(String, bool)> = (0..150).map(|i| (format!("f{i}"), false)).collect();
    assert_eq!(directory_preview(&many).lines().count(), 100);
}

#[test]
fn content_preview_tells_text_from_binary() {
    assert_eq!(content_preview(&b"hello\nworld".to_vec()), "hello\nworld");
    // A multi-byte character cut off by the end of the sample still reads as text.
    assert_eq!(content_preview(&vec![b'a', 0xC3]), "a\u{FFFD}");
    assert_eq!(content_preview(&vec![0xFF, 0x00, 0x01]), "[Binary file content]");
    assert_eq!(content_preview(&vec![0xC3]), "[Binary file content]");
}

#[test]
fn preview_names_and_images() {
    assert_eq!(preview_name("/a/b.png"), "b.png");
    assert_eq!(preview_name("/"), "/");
    assert!(wants_image_preview("/a/b.PNG"));
    assert!(wants_image_preview("/a/icon.ico"));
    assert!(!wants_image_preview("/a/b.txt"));
    assert!(!wants_image_preview("/a/.png"));
}

#[test]
fn modified_times_format_in_utc() {
    assert_eq!(modified_text(Some(0), false), "1970-01-01 00:00");
    assert_eq!(modified_text(Some(86_461), true), "1970-01-02 00:01:01");
    assert_eq!(modified_text(None, true), "—");
    assert_eq!(modified_text(Some(i64::MAX as u64), false), "—");
}

#[test]
fn listing_comparison_on_lowered_keys() {
    let a: Vec<char> = "alpha".chars().collect();
    let b: Vec<char> = "beta".chars().collect();
    assert!(comes_before(true, &b, false, &a));
    assert!(!comes_before(false, &a, true, &b));
    assert!(comes_before(false, &a, false, &b));
    assert!(!comes_before(false, &a, false, &a));
}
