use cce_files::pages::preview::{update, PreviewMessage, PreviewState};
use cce_files::services::fs::PreviewData;

#[test]
fn loaded_preview_replaces_what_the_pane_shows() {
    let mut pane = PreviewState::new();
    pane.scroll_line = 7;
    let data = PreviewData {
        name: "a.txt".to_string(),
        is_dir: false,
        size: "3 B".to_string(),
        permissions: "-rw-r--r--".to_string(),
        modified: "1970-01-01 00:00:00".to_string(),
        file_type: "Plain text".to_string(),
        target: String::new(),
        content_preview: Some("abc".to_string()),
        image_preview: None,
    };
    update(&mut pane, PreviewMessage::PreviewLoaded { path: "/d/a.txt".to_string(), data });
    assert_eq!(pane.path, Some("/d/a.txt".to_string()));
    assert_eq!(pane.path_display, "/d/a.txt");
    assert_eq!(pane.name, "a.txt");
    assert_eq!(pane.content_preview, Some("abc".to_string()));
    assert_eq!(pane.scroll_line, 0);
    update(&mut pane, PreviewMessage::SetPath { path: "/other".to_string() });
    assert_eq!(pane.name, "a.txt");
    update(&mut pane, PreviewMessage::Clear);
    assert_eq!(pane.path, None);
    assert_eq!(pane.name, "");
    assert!(pane.content_preview.is_none());
}
