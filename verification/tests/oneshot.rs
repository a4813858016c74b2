use molyuuctl::config::{Configuration, LoginTable, SessionTable};
use molyuuctl::session::{resolve_startup_session, Session, SystemSessions};
use molyuuctl::lock::LockSpace;
use molyuuctl::protocol::Protocol;

fn empty_config() -> Configuration {
    Configuration {
        session: SessionTable {
            records: Vec::new(),
            default: None,
            oneshot_session: None,
            oneshot_started: None,
        },
        login: LoginTable { manager: None, autologin_enable: None, autologin_user: None },
    }
}

fn system_with(x: &[&str], w: &[&str]) -> SystemSessions {
    SystemSessions {
        xsessions: x.iter().map(|s| s.to_string()).collect(),
        wayland_sessions: w.iter().map(|s| s.to_string()).collect(),
    }
}

#[test]
fn oneshot_preempts_default_exactly_once() {
    let sys = system_with(&["x", "d"], &[]);
    let mut cfg = empty_config();
    for name in ["x", "d"] {
        Session::new(name.to_string(), name.to_string(), None, None, &sys)
            .unwrap()
            .register(&mut cfg)
            .unwrap();
    }
    let d = Session::from_config(Some("d"), &cfg, &sys).unwrap();
    d.set_as_default(&mut cfg).unwrap();
    let x = Session::from_config(Some("x"), &cfg, &sys).unwrap();
    x.set_start_oneshot(&mut cfg);
    assert_eq!(cfg.session.oneshot_started, Some(false));

    // First decision launches the one-shot session and marks it started.
    let first = resolve_startup_session(&mut cfg);
    assert_eq!(first.as_deref(), Some("x"));
    assert_eq!(cfg.session.oneshot_started, Some(true));

    // Second decision falls to the current default, not to "x" again.
    let second = resolve_startup_session(&mut cfg);
    assert_eq!(second, None);
    let launched = Session::from_config(second.as_deref(), &cfg, &sys).unwrap();
    assert_eq!(launched.reg_name, "d");
}

#[test]
fn oneshot_selection_resets_started_flag() {
    let sys = system_with(&["x"], &[]);
    let mut cfg = empty_config();
    Session::new("x".to_string(), "x".to_string(), None, None, &sys)
        .unwrap()
        .register(&mut cfg)
        .unwrap();
    let x = Session::from_config(Some("x"), &cfg, &sys).unwrap();
    x.set_start_oneshot(&mut cfg);
    resolve_startup_session(&mut cfg);
    assert_eq!(cfg.session.oneshot_started, Some(true));
    // Selecting again re-arms the one-shot.
    x.set_start_oneshot(&mut cfg);
    assert_eq!(cfg.session.oneshot_started, Some(false));
    assert_eq!(resolve_startup_session(&mut cfg).as_deref(), Some("x"));
}

#[test]
fn started_flag_missing_means_not_pending() {
    let sys = system_with(&["x"], &[]);
    let mut cfg = empty_config();
    Session::new("x".to_string(), "x".to_string(), None, None, &sys)
        .unwrap()
        .register(&mut cfg)
        .unwrap();
    cfg.session.oneshot_session = Some("x".to_string());
    cfg.session.oneshot_started = None;
    assert_eq!(resolve_startup_session(&mut cfg), None);
    assert!(Session::get_oneshot_session(&cfg, &sys).unwrap().is_none());
}

#[test]
fn get_oneshot_session_resolves_pending_only() {
    let sys = system_with(&["x"], &[]);
    let mut cfg = empty_config();
    Session::new("x".to_string(), "x".to_string(), None, None, &sys)
        .unwrap()
        .register(&mut cfg)
        .unwrap();
    assert!(Session::get_oneshot_session(&cfg, &sys).unwrap().is_none());
    let x = Session::from_config(Some("x"), &cfg, &sys).unwrap();
    x.set_start_oneshot(&mut cfg);
    let pending = Session::get_oneshot_session(&cfg, &sys).unwrap().unwrap();
    assert_eq!(pending.reg_name, "x");
    assert_eq!(pending.get_protocol(), Protocol::X11);
    cfg.session.oneshot_started = Some(true);
    assert!(Session::get_oneshot_session(&cfg, &sys).unwrap().is_none());
}

#[test]
fn running_session_read_from_startup_lock() {
    let sys = system_with(&["a"], &[]);
    let mut cfg = empty_config();
    Session::new("a".to_string(), "a".to_string(), None, None, &sys)
        .unwrap()
        .register(&mut cfg)
        .unwrap();
    let mut space = LockSpace::empty();
    assert!(Session::get_running_session(&cfg, &sys, &space).unwrap().is_none());

    let a = Session::from_config(Some("a"), &cfg, &sys).unwrap();
    let mut guard = a.acquire_startup_lock(&mut space).unwrap();
    let running = Session::get_running_session(&cfg, &sys, &space).unwrap().unwrap();
    assert_eq!(running.reg_name, "a");

    // A concurrent launch is refused while the lock is held.
    let second = a.acquire_startup_lock(&mut space);
    assert!(second.is_err());

    guard.release(&mut space);
    assert!(Session::get_running_session(&cfg, &sys, &space).unwrap().is_none());
}

#[test]
fn startup_lock_payload_is_the_registration_name() {
    let sys = SystemSessions { xsessions: vec!["a".to_string()], wayland_sessions: Vec::new() };
    let mut space = LockSpace::empty();
    let a = Session::new("a".to_string(), "a".to_string(), None, None, &sys).unwrap();
    let mut guard = a.acquire_startup_lock(&mut space).unwrap();
    let payload =
        molyuuctl::lock::read_lock_payload(&space, molyuuctl::session::SESSION_STARTUP_LOCK);
    assert_eq!(payload.as_deref(), Some("a"));
    guard.release(&mut space);
}
