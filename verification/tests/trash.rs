use cce_files::services::trash::{
    count_removed, empty, files_dir, info_file_name, is_trash_files_dir, libc_exdev, move_to_trash,
    needs_copy_fallback, next_candidate_number, origin_of, percent_decode, percent_encode, read_origin,
    reserve_trash_name, restore, restore_target, trash_candidate, trash_dir, Reservation, TrashEnv, TrashError,
    MAX_TRASH_NAME_ATTEMPTS,
};

fn env_home(home: &str) -> TrashEnv {
    TrashEnv { xdg_data_home: None, home: Some(home.to_string()) }
}

#[test]
fn test_percent_roundtrip() {
    let s = "/home/user/My Files/café ünï.txt";
    let enc = percent_encode(s);
    assert!(!enc.contains(' '));
    assert_eq!(percent_decode(&enc), s);
}

#[test]
fn percent_encoding_exact() {
    assert_eq!(percent_encode("/a b/é"), "/a%20b/%C3%A9");
    assert_eq!(percent_encode("A-z_0.~/"), "A-z_0.~/");
    assert_eq!(percent_decode("%41%4a%zz%"), "AJ%zz%");
}

#[test]
fn trash_location_follows_xdg_then_home() {
    let xdg = TrashEnv { xdg_data_home: Some("/xdg".to_string()), home: Some("/home/u".to_string()) };
    assert_eq!(trash_dir(&xdg), Some("/xdg/Trash".to_string()));
    let relative = TrashEnv { xdg_data_home: Some("rel".to_string()), home: Some("/home/u".to_string()) };
    assert_eq!(trash_dir(&relative), Some("/home/u/.local/share/Trash".to_string()));
    assert_eq!(files_dir(&env_home("/home/u")), Some("/home/u/.local/share/Trash/files".to_string()));
    let nothing = TrashEnv { xdg_data_home: None, home: None };
    assert_eq!(trash_dir(&nothing), None);
}

#[test]
fn files_dir_is_recognised() {
    let env = env_home("/home/u");
    assert!(is_trash_files_dir("/home/u/.local/share/Trash/files", &env));
    assert!(is_trash_files_dir("/home/u/.local/share/Trash/files/", &env));
    assert!(!is_trash_files_dir("/home/u/.local/share/Trash", &env));
}

#[test]
fn trashing_writes_a_sidecar_that_reads_back() {
    let env = env_home("/home/u");
    let plan = move_to_trash(&env, "/home/u/doomed file.txt", "2024-01-02T03:04:05").unwrap();
    assert_eq!(plan.files, "/home/u/.local/share/Trash/files");
    assert_eq!(plan.info, "/home/u/.local/share/Trash/info");
    assert_eq!(plan.name, "doomed file.txt");
    assert!(plan.info_body.starts_with("[Trash Info]\n"));
    assert!(plan.info_body.contains("DeletionDate=2024-01-02T03:04:05"));
    assert_eq!(plan.info_body, "[Trash Info]\nPath=/home/u/doomed%20file.txt\nDeletionDate=2024-01-02T03:04:05\n");
    assert_eq!(origin_of(&plan.info_body), Some("/home/u/doomed file.txt".to_string()));
}

#[test]
fn trash_errors() {
    let nothing = TrashEnv { xdg_data_home: None, home: None };
    assert!(matches!(move_to_trash(&nothing, "/a/b", "d"), Err(TrashError::NoHome)));
    assert!(matches!(move_to_trash(&env_home("/h"), "/", "d"), Err(TrashError::NoFileName)));
    assert!(matches!(restore(&nothing, "/t/files/x"), Err(TrashError::NoHome)));
    assert!(matches!(restore(&env_home("/h"), "/"), Err(TrashError::NoFileName)));
    assert!(matches!(empty(&nothing), Err(TrashError::NoHome)));
    assert_eq!(read_origin("[Trash Info]\nDeletionDate=x\n"), Err(TrashError::NoOriginLine));
    assert_eq!(next_candidate_number(MAX_TRASH_NAME_ATTEMPTS), Err(TrashError::NoFreeName));
}

#[test]
fn candidate_names_count_up() {
    assert_eq!(trash_candidate("dup.txt", 1), "dup.txt");
    assert_eq!(trash_candidate("dup.txt", 2), "dup.txt.2");
    assert_eq!(trash_candidate("dup.txt", 3), "dup.txt.3");
    assert_eq!(next_candidate_number(1), Ok(2));
    assert_eq!(info_file_name("dup.txt.2"), "dup.txt.2.trashinfo");
}

#[test]
fn restore_reads_the_sidecar_path() {
    let env = env_home("/home/u");
    assert_eq!(
        restore(&env, "/home/u/.local/share/Trash/files/clash.txt"),
        Ok("/home/u/.local/share/Trash/info/clash.txt.trashinfo".to_string())
    );
    assert_eq!(read_origin("junk\r\nPath=/x/a%20b\r\nPath=/y\n"), Ok("/x/a b".to_string()));
}

#[test]
fn restore_refuses_to_overwrite() {
    assert_eq!(
        restore_target("/home/u/clash.txt", true),
        Err(TrashError::OriginExists("/home/u/clash.txt".to_string()))
    );
    assert_eq!(restore_target("/home/u/clash.txt", false), Ok(Some("/home/u".to_string())));
}

#[test]
fn emptying_counts_successes() {
    let layout = empty(&env_home("/h")).unwrap();
    assert_eq!(layout.files, "/h/.local/share/Trash/files");
    assert_eq!(layout.info, "/h/.local/share/Trash/info");
    assert_eq!(count_removed(&vec![true, false, true, true]), 3);
}

#[test]
fn cross_device_rename_falls_back_to_copy() {
    assert_eq!(libc_exdev(), 18);
    assert!(needs_copy_fallback(Some(18)));
    assert!(!needs_copy_fallback(Some(13)));
    assert!(!needs_copy_fallback(None));
}

#[test]
fn reservation_takes_the_first_free_candidate() {
    let taken = ["dup.txt".to_string(), "dup.txt.2".to_string()];
    let r = reserve_trash_name("dup.txt", |c: String| -> Result<bool, String> { Ok(!taken.contains(&c)) });
    assert!(matches!(r, Reservation::Reserved(ref c) if c == "dup.txt.3"));
    let free = reserve_trash_name("new.txt", |_c: String| -> Result<bool, String> { Ok(true) });
    assert!(matches!(free, Reservation::Reserved(ref c) if c == "new.txt"));
    let failing = reserve_trash_name("x", |c: String| -> Result<bool, String> {
        if c == "x" { Ok(false) } else { Err(format!("denied {c}")) }
    });
    assert!(matches!(failing, Reservation::Failed(ref e) if e == "denied x.2"));
    let full = reserve_trash_name("y", |_c: String| -> Result<bool, String> { Ok(false) });
    assert!(matches!(full, Reservation::NoFreeName));
}
