use cce_files::services::apps::{
    associated_application, associations_from, desktop_file_candidates, command_output_text, last_dir_candidate, last_dir_file,
    launch_command, load_kdl_associations, parse_desktop_entry, KdlChild,
};

#[test]
fn command_output_is_trimmed_text() {
    assert_eq!(command_output_text(true, &b"text/plain\n".to_vec()), Some("text/plain".to_string()));
    assert_eq!(command_output_text(true, &b"  \n".to_vec()), None);
    assert_eq!(command_output_text(false, &b"text/plain\n".to_vec()), None);
}

#[test]
fn desktop_entry_name_and_command() {
    let content = "[Desktop Entry]\nName=Text Editor\nName=Other\nExec=gedit %U --new-window %f\n";
    assert_eq!(
        parse_desktop_entry(content, "org.gnome.gedit.desktop"),
        Some(("Text Editor".to_string(), "gedit  --new-window".to_string()))
    );
}

#[test]
fn desktop_entry_without_name_uses_file_name() {
    let content = "  Exec=  vlc %F  \r\n";
    assert_eq!(
        parse_desktop_entry(content, "vlc.desktop"),
        Some(("vlc".to_string(), "vlc".to_string()))
    );
    assert_eq!(parse_desktop_entry("Name=Only\n", "x.desktop"), None);
}

#[test]
fn launch_splits_the_command_and_appends_the_path() {
    assert_eq!(
        launch_command("gedit  --new-window", "/a b.txt"),
        Some(("gedit".to_string(), vec!["--new-window".to_string(), "/a b.txt".to_string()]))
    );
    assert_eq!(launch_command("   ", "/x"), None);
    assert_eq!(launch_command("", "/x"), None);
}

fn child(name: &str, mime: Option<&str>, exec: Option<&str>) -> KdlChild {
    KdlChild {
        name: name.to_string(),
        mime_arg: mime.map(|m| Some(m.to_string())),
        mime_prop: None,
        exec_arg: exec.map(|e| Some(e.to_string())),
        exec_prop: None,
    }
}

#[test]
fn associations_later_entries_win() {
    let children = vec![
        child("association", Some("text/plain"), Some("vim")),
        child("comment", Some("text/plain"), Some("nano")),
        child("association", Some("image/png"), None),
        child("association", Some("text/plain"), Some("hx")),
    ];
    let assoc = associations_from(&children).unwrap();
    assert_eq!(assoc.command_for("text/plain"), Some("hx".to_string()));
    assert_eq!(assoc.command_for("image/png"), None);
    assert_eq!(associated_application(&assoc, "text/plain"), Some(("hx".to_string(), "hx".to_string())));
    assert!(associations_from(&vec![child("comment", Some("a"), Some("b"))]).is_none());
}

#[test]
fn association_argument_beats_property() {
    let c = KdlChild {
        name: "association".to_string(),
        mime_arg: None,
        mime_prop: Some(Some("text/x".to_string())),
        exec_arg: Some(None),
        exec_prop: Some(Some("ignored".to_string())),
    };
    assert!(associations_from(&vec![c]).is_none());
}

#[test]
fn kdl_associations_load() {
    let text = "associations {\n    association \"text/plain\" \"hx\"\n    association mime=\"image/png\" exec=\"imv\"\n}\n";
    let assoc = load_kdl_associations(text).unwrap();
    assert_eq!(assoc.command_for("text/plain"), Some("hx".to_string()));
    assert_eq!(assoc.command_for("image/png"), Some("imv".to_string()));
    assert!(load_kdl_associations("not { kdl").is_none());
    assert!(load_kdl_associations("other {\n}\n").is_none());
}

#[test]
fn last_dir_file_location() {
    assert_eq!(
        last_dir_file(&Some("/cfg".to_string()), &Some("/home/u".to_string())),
        Some("/cfg/cce/cce-files/cce-files-last-dir.txt".to_string())
    );
    assert_eq!(
        last_dir_file(&Some(String::new()), &Some("/home/u".to_string())),
        Some("/home/u/.config/cce/cce-files/cce-files-last-dir.txt".to_string())
    );
    assert_eq!(last_dir_file(&None, &None), None);
    assert_eq!(last_dir_candidate("  /some/dir\n"), Some("/some/dir".to_string()));
    assert_eq!(last_dir_candidate(" \n"), None);
}

#[test]
fn desktop_files_are_looked_for_in_order() {
    let c = desktop_file_candidates("/home/u", "vlc.desktop");
    assert_eq!(
        c,
        vec![
            "/home/u/.local/share/applications/vlc.desktop".to_string(),
            "/usr/share/applications/vlc.desktop".to_string(),
            "/usr/local/share/applications/vlc.desktop".to_string(),
        ]
    );
    let no_home = desktop_file_candidates("", "x.desktop");
    assert_eq!(no_home[0], ".local/share/applications/x.desktop");
}

#[test]
fn kdl_associations_read_arguments_before_properties() {
    let text = "associations {\n    association \"a/b\" exec=\"second\" \"first\"\n    association mime=\"c/d\" 1 \"bad\"\n    other \"x/y\" \"z\"\n}\n";
    let assoc = load_kdl_associations(text).unwrap();
    assert_eq!(assoc.command_for("a/b"), Some("first".to_string()));
    assert_eq!(assoc.command_for("c/d"), None);
    assert_eq!(assoc.command_for("x/y"), None);
}
