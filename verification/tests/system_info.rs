use tuigreet::info::{
    default_session_paths, get_last_user_name, get_last_user_username, get_min_max_uids, get_sessions,
    load_desktop_file, mock_sessions, read_trimmed, xdg_data_dirs, DesktopFile,
};
use tuigreet::issue::{count_users, get_issue, replace_str, LoginRecord, UtsName};
use tuigreet::ui::sessions::{sort_sessions, Session, SessionType};
use tuigreet::ui::users::{get_users, name_from_gecos, Account};

#[test]
fn nsswrapper_get_users_from_nss() {
    let accounts = vec![
        Account { uid: 0, name: "root".to_string(), gecos: "root".to_string() },
        Account { uid: 1000, name: "joe".to_string(), gecos: "Joe".to_string() },
        Account { uid: 1001, name: "bob".to_string(), gecos: String::new() },
        Account { uid: 65534, name: "nobody".to_string(), gecos: "Nobody".to_string() },
    ];
    let users = get_users(&accounts, 1000, 2000);

    assert_eq!(users.len(), 2);
    assert_eq!(users[0].username, "joe");
    assert_eq!(users[0].name, Some("Joe".to_string()));
    assert_eq!(users[1].username, "bob");
    assert_eq!(users[1].name, None);
}

#[test]
fn gecos_name_stops_at_comma() {
    assert_eq!(name_from_gecos("Jane Doe,Room 1,555"), Some("Jane Doe".to_string()));
    assert_eq!(name_from_gecos(",x"), Some(String::new()));
    assert_eq!(name_from_gecos(""), None);
}

#[test]
fn uid_range_prefers_given_then_login_defs_then_defaults() {
    let defs = Some("UID_MIN   500\nUID_MAX 9000 # trailing\nUID_MIN nope\n".to_string());
    assert_eq!(get_min_max_uids(Some(10), Some(20), &defs), (10, 20));
    assert_eq!(get_min_max_uids(None, None, &defs), (500, 9000));
    assert_eq!(get_min_max_uids(Some(1), None, &defs), (1, 9000));
    assert_eq!(get_min_max_uids(None, Some(7), &defs), (500, 7));
    assert_eq!(get_min_max_uids(None, None, &None), (1000, 60000));
    assert_eq!(get_min_max_uids(None, None, &Some("UID_MIN\n".to_string())), (1000, 60000));
}

#[test]
fn cache_contents_are_trimmed() {
    assert_eq!(read_trimmed(&Some("  joe \n".to_string())), Some("joe".to_string()));
    assert_eq!(read_trimmed(&Some(" \n ".to_string())), None);
    assert_eq!(read_trimmed(&None), None);
    assert_eq!(get_last_user_username(&Some("ann\n".to_string())), Some("ann".to_string()));
    assert_eq!(get_last_user_name(&Some("Ann Smith\n".to_string())), Some("Ann Smith".to_string()));
}

#[test]
fn mock_sessions_pad_the_menu() {
    let s = mock_sessions();
    assert_eq!(s.len(), 3);
    assert_eq!(s[0].slug.as_deref(), Some("mock-wayland"));
    assert_eq!(s[1].session_type, SessionType::X11);
    assert_eq!(s[2].name, "Mock shell");
    assert!(s.iter().all(|x| x.command == "true" && x.path.is_none()));
}

#[test]
fn desktop_files_become_sessions() {
    let s = load_desktop_file(
        "/usr/share/wayland-sessions/sway.desktop",
        "[Desktop Entry]\nName=Sway\nExec=sway\nDesktopNames=sway\n",
        SessionType::Wayland,
    )
    .expect("parse")
    .expect("session");
    assert_eq!(s.name, "Sway");
    assert_eq!(s.command, "sway");
    assert_eq!(s.slug.as_deref(), Some("sway"));
    assert_eq!(s.path.as_deref(), Some("/usr/share/wayland-sessions/sway.desktop"));
    assert_eq!(s.xdg_desktop_names.as_deref(), Some("sway"));

    assert!(matches!(
        load_desktop_file("/a/b.desktop", "[Desktop Entry]\nName=B\nExec=b\nHidden=true\n", SessionType::X11),
        Ok(None)
    ));
    assert_eq!(
        load_desktop_file("/a/b.desktop", "[Other]\nName=B\n", SessionType::X11).err(),
        Some("no Desktop Entry section in desktop file".to_string())
    );
    assert_eq!(
        load_desktop_file("/a/b.desktop", "[Desktop Entry]\nExec=b\n", SessionType::X11).err(),
        Some("no Name property in desktop file".to_string())
    );
    assert_eq!(
        load_desktop_file("/a/b.desktop", "[Desktop Entry]\nName=B\n", SessionType::X11).err(),
        Some("no Exec property in desktop file".to_string())
    );
}

#[test]
fn sessions_are_sorted_by_name() {
    let files = vec![
        DesktopFile { path: "/w/z.desktop".to_string(), text: "[Desktop Entry]\nName=Zed\nExec=z\n".to_string(), session_type: SessionType::Wayland },
        DesktopFile { path: "/w/h.desktop".to_string(), text: "[Desktop Entry]\nName=Hidden\nExec=h\nNoDisplay=true\n".to_string(), session_type: SessionType::Wayland },
        DesktopFile { path: "/x/a.desktop".to_string(), text: "[Desktop Entry]\nName=Alpha\nExec=a\n".to_string(), session_type: SessionType::X11 },
        DesktopFile { path: "/x/m.desktop".to_string(), text: "no section here".to_string(), session_type: SessionType::X11 },
    ];
    let sessions = get_sessions(&files);
    let names: Vec<&str> = sessions.iter().map(|s| s.name.as_str()).collect();
    assert_eq!(names, vec!["Alpha", "Zed"]);
    assert_eq!(sessions[0].session_type, SessionType::X11);

    let unsorted = vec![
        Session { slug: None, name: "b".to_string(), command: "1".to_string(), session_type: SessionType::Wayland, path: None, xdg_desktop_names: None },
        Session { slug: None, name: "B".to_string(), command: "2".to_string(), session_type: SessionType::Wayland, path: None, xdg_desktop_names: None },
        Session { slug: None, name: "b".to_string(), command: "3".to_string(), session_type: SessionType::Wayland, path: None, xdg_desktop_names: None },
    ];
    let sorted = sort_sessions(unsorted);
    let commands: Vec<&str> = sorted.iter().map(|s| s.command.as_str()).collect();
    assert_eq!(commands, vec!["2", "1", "3"]);
}

#[test]
fn default_session_directories() {
    assert_eq!(xdg_data_dirs(&None), vec!["/usr/local/share".to_string(), "/usr/share".to_string()]);
    assert_eq!(xdg_data_dirs(&Some("relative:/opt/:".to_string())), vec!["/opt/".to_string()]);
    let paths = default_session_paths(&Some("/opt/:/usr".to_string()));
    assert_eq!(
        paths,
        vec![
            ("/opt/wayland-sessions".to_string(), SessionType::Wayland),
            ("/usr/wayland-sessions".to_string(), SessionType::Wayland),
            ("/opt/xsessions".to_string(), SessionType::X11),
            ("/usr/xsessions".to_string(), SessionType::X11),
        ]
    );
}

#[test]
fn issue_escapes_are_replaced() {
    let uts = Some(UtsName {
        sysname: "Linux".to_string(),
        release: "6.1".to_string(),
        version: "#1".to_string(),
        nodename: "host".to_string(),
        machine: "x86_64".to_string(),
        domainname: "(none)".to_string(),
    });
    let issue = Some("\\S \\r on \\n (\\l) \\U \\d \\t \\e[1m \\\\".to_string());
    let records = vec![LoginRecord::User, LoginRecord::Other, LoginRecord::Login];
    let r = get_issue(&issue, "Mon Jan  1 2024", "12:00:00", &records, &Some("3".to_string()), &uts);
    assert_eq!(r, Some("Linux 6.1 on host (tty3) 2 users Mon Jan  1 2024 12:00:00 \x1b[1m \\".to_string()));
    let one = get_issue(&Some("\\U".to_string()), "", "", &vec![LoginRecord::Login], &None, &None);
    assert_eq!(one, Some("1 user".to_string()));
    let zero = get_issue(&Some("\\l \\n".to_string()), "", "", &Vec::new(), &Some("tty".to_string()), &None);
    assert_eq!(zero, Some("tty0 \\n".to_string()));
    assert_eq!(get_issue(&None, "", "", &Vec::new(), &None, &None), None);
    assert_eq!(count_users(&records), 2);
}

#[test]
fn replace_is_left_to_right_without_overlap() {
    assert_eq!(replace_str("aaa", "aa", "b"), "ba");
    assert_eq!(replace_str("abcabc", "bc", ""), "aa");
    assert_eq!(replace_str("x", "xyz", "q"), "x");
}

#[test]
fn desktop_entry_reads_first_section_and_first_values() {
    let text = "Name=general\n[Desktop Entry]\nName=First\nName=Second\nExec=run\n[Desktop Entry]\nName=Other\nExec=other\n";
    let s = load_desktop_file("/s/one.desktop", text, SessionType::Wayland).expect("parses").expect("shown");
    assert_eq!(s.name, "First");
    assert_eq!(s.command, "run");
    assert_eq!(s.slug.as_deref(), Some("one"));
    let lower = load_desktop_file("/s/two.desktop", "[desktop entry]\nName=A\nExec=a\n", SessionType::X11);
    assert!(lower.is_err());
}
