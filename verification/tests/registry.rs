use molyuuctl::config::{Configuration, LoginTable, SessionRecord, SessionTable};
use molyuuctl::errors::SessionInstanceError;
use molyuuctl::protocol::Protocol;
use molyuuctl::session::{Session, SystemSessions};

fn empty_config() -> Configuration {
    Configuration {
        session: SessionTable {
            records: Vec::new(),
            default: None,
            oneshot_session: None,
            oneshot_started: None,
        },
        login: LoginTable { manager: None, autologin_enable: None, autologin_user: None },
    }
}

fn system_with(x: &[&str], w: &[&str]) -> SystemSessions {
    SystemSessions {
        xsessions: x.iter().map(|s| s.to_string()).collect(),
        wayland_sessions: w.iter().map(|s| s.to_string()).collect(),
    }
}

#[test]
fn auto_protocol_resolves_x11_first() {
    let sys = system_with(&["foo"], &[]);
    let s = Session::new("foo".to_string(), "foo".to_string(), None, None, &sys).unwrap();
    assert_eq!(s.get_protocol(), Protocol::X11);
}

#[test]
fn auto_protocol_resolves_wayland_when_only_wayland() {
    let sys = system_with(&[], &["foo"]);
    let s = Session::new("foo".to_string(), "foo".to_string(), None, None, &sys).unwrap();
    assert_eq!(s.get_protocol(), Protocol::Wayland);
}

#[test]
fn auto_protocol_fails_when_not_installed() {
    let sys = system_with(&[], &[]);
    let r = Session::new("foo".to_string(), "foo".to_string(), None, None, &sys);
    assert!(matches!(r, Err(SessionInstanceError::SessionNotFoundInSystem)));
}

#[test]
fn explicit_protocol_validates_registration_name() {
    // An explicit protocol is checked against the registration name's
    // descriptor, not the real name's.
    let sys = system_with(&["regname"], &[]);
    let ok = Session::new(
        "regname".to_string(),
        "realname".to_string(),
        None,
        Some(Protocol::X11),
        &sys,
    );
    assert!(ok.is_ok());
    let bad = Session::new(
        "realname".to_string(),
        "regname".to_string(),
        None,
        Some(Protocol::X11),
        &sys,
    );
    assert!(matches!(bad, Err(SessionInstanceError::SessionNotFoundInSystem)));
}

#[test]
fn register_persists_record_with_protocol() {
    let sys = system_with(&["foo"], &[]);
    let mut cfg = empty_config();
    let s = Session::new("foo".to_string(), "foo".to_string(), Some("bye".to_string()), None, &sys)
        .unwrap();
    s.register(&mut cfg).unwrap();
    assert_eq!(cfg.session.records.len(), 1);
    assert_eq!(cfg.session.records[0].reg_name, "foo");
    assert_eq!(cfg.session.records[0].real_name, "foo");
    assert_eq!(cfg.session.records[0].protocol.as_deref(), Some("x11"));
    assert_eq!(cfg.session.records[0].logout_command.as_deref(), Some("bye"));
}

#[test]
fn register_duplicate_name_fails() {
    let sys = system_with(&["foo"], &[]);
    let mut cfg = empty_config();
    let s = Session::new("foo".to_string(), "foo".to_string(), None, None, &sys).unwrap();
    s.register(&mut cfg).unwrap();
    let again = s.register(&mut cfg);
    assert!(matches!(again, Err(SessionInstanceError::SessionExists)));
    assert_eq!(cfg.session.records.len(), 1);
}

#[test]
fn names_stay_distinct_over_register_rename_remove() {
    let sys = system_with(&["a", "b", "c"], &[]);
    let mut cfg = empty_config();
    for name in ["a", "b", "c"] {
        Session::new(name.to_string(), name.to_string(), None, None, &sys)
            .unwrap()
            .register(&mut cfg)
            .unwrap();
    }
    let mut a = Session::from_config(Some("a"), &cfg, &sys).unwrap();
    a.rename("d", &mut cfg).unwrap();
    let b = Session::from_config(Some("b"), &cfg, &sys).unwrap();
    b.remove(&mut cfg, &sys, None).unwrap();
    let names: Vec<&str> = cfg.session.records.iter().map(|r| r.reg_name.as_str()).collect();
    for i in 0..names.len() {
        for j in (i + 1)..names.len() {
            assert_ne!(names[i], names[j]);
        }
    }
    assert!(cfg.check_wf());
    assert_eq!(names.len(), 2);
    assert!(names.contains(&"c"));
    assert!(names.contains(&"d"));
}

#[test]
fn rename_moves_record_intact() {
    let sys = system_with(&["areal"], &[]);
    let mut cfg = empty_config();
    let s = Session::new("a".to_string(), "areal".to_string(), Some("stop".to_string()), None, &sys)
        .unwrap();
    s.register(&mut cfg).unwrap();
    let mut a = Session::from_config(Some("a"), &cfg, &sys).unwrap();
    a.rename("b", &mut cfg).unwrap();
    assert_eq!(a.reg_name, "b");
    let b = Session::from_config(Some("b"), &cfg, &sys).unwrap();
    assert_eq!(b.real_name, "areal");
    assert_eq!(b.logout_command.as_deref(), Some("stop"));
    assert_eq!(b.get_protocol(), Protocol::X11);
    let gone = Session::from_config(Some("a"), &cfg, &sys);
    assert!(matches!(gone, Err(SessionInstanceError::SessionNotFoundInConfig)));
}

#[test]
fn rename_follows_default_but_not_oneshot() {
    let sys = system_with(&["a"], &[]);
    let mut cfg = empty_config();
    let s = Session::new("a".to_string(), "a".to_string(), None, None, &sys).unwrap();
    s.register(&mut cfg).unwrap();
    s.set_as_default(&mut cfg).unwrap();
    s.set_start_oneshot(&mut cfg);
    let mut a = Session::from_config(Some("a"), &cfg, &sys).unwrap();
    a.rename("b", &mut cfg).unwrap();
    assert_eq!(cfg.session.default.as_deref(), Some("b"));
    // The one-shot pointer is deliberately left behind.
    assert_eq!(cfg.session.oneshot_session.as_deref(), Some("a"));
}

#[test]
fn rename_to_existing_name_fails() {
    let sys = system_with(&["a", "b"], &[]);
    let mut cfg = empty_config();
    for name in ["a", "b"] {
        Session::new(name.to_string(), name.to_string(), None, None, &sys)
            .unwrap()
            .register(&mut cfg)
            .unwrap();
    }
    let mut a = Session::from_config(Some("a"), &cfg, &sys).unwrap();
    let r = a.rename("b", &mut cfg);
    assert!(matches!(r, Err(SessionInstanceError::SessionExists)));
    assert_eq!(a.reg_name, "a");
}

#[test]
fn from_config_without_default_fails() {
    let sys = system_with(&[], &[]);
    let cfg = empty_config();
    let r = Session::from_config(None, &cfg, &sys);
    assert!(matches!(r, Err(SessionInstanceError::DefaultSessionNotSet)));
}

#[test]
fn from_config_unknown_name_fails() {
    let sys = system_with(&[], &[]);
    let cfg = empty_config();
    let r = Session::from_config(Some("nope"), &cfg, &sys);
    assert!(matches!(r, Err(SessionInstanceError::SessionNotFoundInConfig)));
}

#[test]
fn from_config_rejects_unknown_stored_protocol() {
    let sys = system_with(&[], &[]);
    let mut cfg = empty_config();
    cfg.session.records.push(SessionRecord {
        reg_name: "a".to_string(),
        real_name: "a".to_string(),
        logout_command: None,
        protocol: Some("mir".to_string()),
    });
    let r = Session::from_config(Some("a"), &cfg, &sys);
    assert!(matches!(r, Err(SessionInstanceError::UnknownProtocol)));
}

#[test]
fn from_config_probes_when_protocol_not_stored() {
    let sys = system_with(&[], &["w"]);
    let mut cfg = empty_config();
    cfg.session.records.push(SessionRecord {
        reg_name: "a".to_string(),
        real_name: "w".to_string(),
        logout_command: None,
        protocol: None,
    });
    let s = Session::from_config(Some("a"), &cfg, &sys).unwrap();
    assert_eq!(s.get_protocol(), Protocol::Wayland);
    // With the descriptor gone, resolution fails on the system probe.
    let bare = system_with(&[], &[]);
    let r = Session::from_config(Some("a"), &cfg, &bare);
    assert!(matches!(r, Err(SessionInstanceError::SessionNotFoundInSystem)));
}

#[test]
fn logout_command_owed_exactly_when_configured() {
    let sys = system_with(&["a"], &[]);
    let with = Session::new("a".to_string(), "a".to_string(), Some("end".to_string()), None, &sys)
        .unwrap();
    assert_eq!(with.logout_command().unwrap(), "end");
    let without = Session::new("a".to_string(), "a".to_string(), None, None, &sys).unwrap();
    assert!(matches!(
        without.logout_command(),
        Err(SessionInstanceError::LogoutCommandNotSet)
    ));
}

#[test]
fn set_logout_command_inserts_and_overwrites() {
    let sys = system_with(&["a"], &[]);
    let mut cfg = empty_config();
    let s = Session::new("a".to_string(), "a".to_string(), None, None, &sys).unwrap();
    s.register(&mut cfg).unwrap();
    s.set_logout_command("first", &mut cfg).unwrap();
    assert_eq!(cfg.session.records[0].logout_command.as_deref(), Some("first"));
    s.set_logout_command("second", &mut cfg).unwrap();
    assert_eq!(cfg.session.records.len(), 1);
    assert_eq!(cfg.session.records[0].logout_command.as_deref(), Some("second"));
}

#[test]
fn check_wf_rejects_duplicate_names() {
    let mut cfg = empty_config();
    for _ in 0..2 {
        cfg.session.records.push(SessionRecord {
            reg_name: "dup".to_string(),
            real_name: "x".to_string(),
            logout_command: None,
            protocol: None,
        });
    }
    assert!(!cfg.check_wf());
}

#[test]
fn descriptor_dir_matches_protocol() {
    let sys = system_with(&["x"], &["w"]);
    let sx = Session::new("x".to_string(), "x".to_string(), None, None, &sys).unwrap();
    assert_eq!(sx.descriptor_dir(), "/usr/share/xsessions");
    let sw = Session::new("w".to_string(), "w".to_string(), None, None, &sys).unwrap();
    assert_eq!(sw.descriptor_dir(), "/usr/share/wayland-sessions");
}
