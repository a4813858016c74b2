use ini::Ini;
use molyuuctl::config::{Configuration, LoginTable, SessionTable};
use molyuuctl::errors::{ControlError, LoginManagerInstanceError, SessionInstanceError};
use molyuuctl::manager::{
    current_manager_config_path, current_manager_kind, get_current_manager, set_manager, Manager,
    ManagerBuilder, ManagerMetadata, SupportedManager,
};
use molyuuctl::protocol::Protocol;
use molyuuctl::session::{Session, SystemSessions};

fn empty_config() -> Configuration {
    Configuration {
        session: SessionTable {
            records: Vec::new(),
            default: None,
            oneshot_session: None,
            oneshot_started: None,
        },
        login: LoginTable { manager: None, autologin_enable: None, autologin_user: None },
    }
}

fn system_with(x: &[&str], w: &[&str]) -> SystemSessions {
    SystemSessions {
        xsessions: x.iter().map(|s| s.to_string()).collect(),
        wayland_sessions: w.iter().map(|s| s.to_string()).collect(),
    }
}

fn config_with_default_x11(name: &str) -> (Configuration, SystemSessions) {
    let sys = system_with(&[name], &[]);
    let mut cfg = empty_config();
    let s = Session::new(name.to_string(), name.to_string(), None, None, &sys).unwrap();
    s.register(&mut cfg).unwrap();
    s.set_as_default(&mut cfg).unwrap();
    (cfg, sys)
}

#[test]
fn metadata_table_is_fixed() {
    let l = ManagerMetadata::build_for_supported_manager(SupportedManager::LightDM);
    assert_eq!(l.systemd_unit, "lightdm");
    assert_eq!(l.config_path, "/etc/lightdm/lightdm.conf.d/10-molyuud-session.conf");
    assert_eq!(l.autologin_section_name, "Seat:*");
    assert_eq!(l.autologin_session_key_name, "autologin-session");
    assert_eq!(l.autologin_user_key_name, "autologin-user");
    assert!(l.autologin_related_other_configs.is_none());

    let s = ManagerMetadata::build_for_supported_manager(SupportedManager::SDDM);
    assert_eq!(s.systemd_unit, "sddm");
    assert_eq!(s.config_path, "/etc/sddm.conf.d/molyuuctl.conf");
    assert_eq!(s.autologin_section_name, "Autologin");
    assert_eq!(s.autologin_session_key_name, "Session");
    assert_eq!(s.autologin_user_key_name, "User");
    let aux = s.autologin_related_other_configs.unwrap();
    assert_eq!(aux.len(), 1);
    assert_eq!(aux[0].section, "Autologin");
    assert_eq!(aux[0].key, "Relogin");
    assert_eq!(aux[0].disabled_value, "false");
    assert_eq!(aux[0].enabled_value, "true");
}

#[test]
fn builder_sets_each_field() {
    let sys = system_with(&[], &[]);
    let cfg = empty_config();
    let b = ManagerBuilder::new()
        .systemd_unit("gdm")
        .use_config("/tmp/gdm.conf")
        .autologin_section("daemon")
        .session_key("sess")
        .user_key("usr")
        .other_related_configs(None);
    let m = b.build(None, &cfg, &sys).unwrap();
    assert_eq!(m.metadata.systemd_unit, "gdm");
    assert_eq!(m.metadata.config_path, "/tmp/gdm.conf");
    assert_eq!(m.metadata.autologin_section_name, "daemon");
    assert_eq!(m.metadata.autologin_session_key_name, "sess");
    assert_eq!(m.metadata.autologin_user_key_name, "usr");
    assert!(!m.autologin);
    assert!(m.login_user.is_none());
    assert!(m.session_type.is_none());
}

#[test]
fn manager_new_reads_autologin_from_external_config() {
    let (cfg, sys) = config_with_default_x11("desk");
    let mut doc = Ini::new();
    doc.with_section(Some("Seat:*"))
        .set("autologin-session", "molyuu-redirect-x11")
        .set("autologin-user", "alice");
    let meta = ManagerMetadata::build_for_supported_manager(SupportedManager::LightDM);
    let m = Manager::new(meta, Some(&doc), &cfg, &sys).unwrap();
    assert!(m.autologin);
    assert_eq!(m.login_user.as_deref(), Some("alice"));
    assert_eq!(m.session_type, Some(Protocol::X11));
}

#[test]
fn manager_new_ignores_non_redirect_session() {
    let (cfg, sys) = config_with_default_x11("desk");
    let mut doc = Ini::new();
    doc.with_section(Some("Seat:*"))
        .set("autologin-session", "plasma")
        .set("autologin-user", "alice");
    let meta = ManagerMetadata::build_for_supported_manager(SupportedManager::LightDM);
    let m = Manager::new(meta, Some(&doc), &cfg, &sys).unwrap();
    assert!(!m.autologin);
    // The configured user is still read out.
    assert_eq!(m.login_user.as_deref(), Some("alice"));
}

#[test]
fn save_config_enabled_writes_redirect_and_aux() {
    let (mut cfg, sys) = config_with_default_x11("desk");
    let meta = ManagerMetadata::build_for_supported_manager(SupportedManager::SDDM);
    let mut m = Manager::new(meta, None, &cfg, &sys).unwrap();
    let (doc, path) = m
        .set_auto_login(true, Some("bob"), None, &mut cfg, &sys)
        .unwrap();
    assert_eq!(path, "/etc/sddm.conf.d/molyuuctl.conf");
    let section = doc.section(Some("Autologin")).unwrap();
    assert_eq!(section.get("User"), Some("bob"));
    assert_eq!(section.get("Session"), Some("molyuu-redirect-x11"));
    assert_eq!(section.get("Relogin"), Some("true"));
    // The save mirrors the state into the login namespace.
    assert_eq!(cfg.login.autologin_enable, Some(true));
    assert_eq!(cfg.login.autologin_user.as_deref(), Some("bob"));
}

#[test]
fn save_config_disabled_removes_session_key_keeps_user() {
    let (mut cfg, sys) = config_with_default_x11("desk");
    let mut existing = Ini::new();
    existing.with_section(Some("Autologin"))
        .set("Session", "molyuu-redirect-x11")
        .set("User", "bob")
        .set("Relogin", "true");
    let meta = ManagerMetadata::build_for_supported_manager(SupportedManager::SDDM);
    let mut m = Manager::new(meta, Some(&existing), &cfg, &sys).unwrap();
    assert!(m.autologin);
    let (doc, _path) = m.set_auto_login(false, None, Some(existing), &mut cfg, &sys).unwrap();
    let section = doc.section(Some("Autologin")).unwrap();
    assert_eq!(section.get("Session"), None);
    // The user key is deliberately kept.
    assert_eq!(section.get("User"), Some("bob"));
    assert_eq!(section.get("Relogin"), Some("false"));
    assert_eq!(cfg.login.autologin_enable, Some(false));
}

#[test]
fn set_auto_login_rejects_invalid_combinations() {
    let (mut cfg, sys) = config_with_default_x11("desk");
    let meta = ManagerMetadata::build_for_supported_manager(SupportedManager::LightDM);
    let mut m = Manager::new(meta, None, &cfg, &sys).unwrap();
    let r1 = m.set_auto_login(true, None, None, &mut cfg, &sys);
    assert!(matches!(
        r1,
        Err(ControlError::Login(LoginManagerInstanceError::InvalidParameters))
    ));
    let r2 = m.set_auto_login(false, Some("bob"), None, &mut cfg, &sys);
    assert!(matches!(
        r2,
        Err(ControlError::Login(LoginManagerInstanceError::InvalidParameters))
    ));
}

#[test]
fn enabling_autologin_needs_resolvable_default() {
    let sys = system_with(&[], &[]);
    let mut cfg = empty_config();
    let meta = ManagerMetadata::build_for_supported_manager(SupportedManager::LightDM);
    let mut m = Manager::new(meta, None, &cfg, &sys).unwrap();
    let r = m.set_auto_login(true, Some("bob"), None, &mut cfg, &sys);
    assert!(matches!(
        r,
        Err(ControlError::Session(SessionInstanceError::DefaultSessionNotSet))
    ));
    // Disabling needs no default.
    let r = m.set_auto_login(false, None, None, &mut cfg, &sys);
    assert!(r.is_ok());
}

#[test]
fn set_manager_first_time_persists_kind() {
    let sys = system_with(&[], &[]);
    let mut cfg = empty_config();
    let r = set_manager("sddm", &mut cfg, &sys, None, None);
    let (_doc, path) = r.unwrap();
    assert_eq!(path, "/etc/sddm.conf.d/molyuuctl.conf");
    assert_eq!(cfg.login.manager.as_deref(), Some("sddm"));

    // Selecting the configured manager again is refused.
    let again = set_manager("sddm", &mut cfg, &sys, None, None);
    assert!(matches!(
        again,
        Err(ControlError::Login(LoginManagerInstanceError::ManagerAlreadyDefault))
    ));
    assert_eq!(cfg.login.manager.as_deref(), Some("sddm"));
}

#[test]
fn set_manager_rejects_unknown_kind() {
    let sys = system_with(&[], &[]);
    let mut cfg = empty_config();
    let r = set_manager("gdm", &mut cfg, &sys, None, None);
    assert!(matches!(
        r,
        Err(ControlError::Login(LoginManagerInstanceError::UnsupportedManager))
    ));
    assert!(cfg.login.manager.is_none());
}

#[test]
fn set_manager_switch_carries_autologin_over() {
    let (mut cfg, sys) = config_with_default_x11("desk");
    cfg.login.manager = Some("lightdm".to_string());
    let mut lightdm_conf = Ini::new();
    lightdm_conf.with_section(Some("Seat:*"))
        .set("autologin-session", "molyuu-redirect-x11")
        .set("autologin-user", "alice");
    let r = set_manager("sddm", &mut cfg, &sys, Some(&lightdm_conf), None);
    let (doc, path) = r.unwrap();
    assert_eq!(path, "/etc/sddm.conf.d/molyuuctl.conf");
    let section = doc.section(Some("Autologin")).unwrap();
    assert_eq!(section.get("User"), Some("alice"));
    assert_eq!(section.get("Session"), Some("molyuu-redirect-x11"));
    assert_eq!(section.get("Relogin"), Some("true"));
    assert_eq!(cfg.login.manager.as_deref(), Some("sddm"));
    assert_eq!(cfg.login.autologin_enable, Some(true));
    assert_eq!(cfg.login.autologin_user.as_deref(), Some("alice"));
}

#[test]
fn current_manager_queries() {
    let mut cfg = empty_config();
    assert!(matches!(
        current_manager_kind(&cfg),
        Err(LoginManagerInstanceError::UnknownCurrentManager)
    ));
    assert!(current_manager_config_path(&cfg).is_none());
    cfg.login.manager = Some("weston".to_string());
    assert!(matches!(
        current_manager_kind(&cfg),
        Err(LoginManagerInstanceError::UnknownCurrentManager)
    ));
    cfg.login.manager = Some("lightdm".to_string());
    assert_eq!(current_manager_kind(&cfg).unwrap(), SupportedManager::LightDM);
    assert_eq!(
        current_manager_config_path(&cfg).as_deref(),
        Some("/etc/lightdm/lightdm.conf.d/10-molyuud-session.conf")
    );
    let sys = system_with(&[], &[]);
    let m = get_current_manager(&cfg, &sys, None).unwrap();
    assert_eq!(m.metadata.systemd_unit, "lightdm");
}

#[test]
fn login_now_names_the_unit() {
    let (mut cfg, sys) = config_with_default_x11("desk");
    let meta = ManagerMetadata::build_for_supported_manager(SupportedManager::LightDM);
    let m = Manager::new(meta, None, &cfg, &sys).unwrap();
    let (_doc, path, unit) = m.login_now(None, &mut cfg);
    assert_eq!(unit, "lightdm");
    assert_eq!(path, "/etc/lightdm/lightdm.conf.d/10-molyuud-session.conf");
}

#[test]
fn session_command_read_from_descriptor() {
    let text = "[Desktop Entry]\nName=Desk Session\nExec=run --now\n";
    let doc = Ini::load_from_str(text).unwrap();
    assert_eq!(
        molyuuctl::session::command_from_descriptor(&doc).as_deref(),
        Some("run --now")
    );
    assert_eq!(
        molyuuctl::session::name_from_descriptor(&doc).as_deref(),
        Some("Desk Session")
    );
    let empty = Ini::new();
    assert_eq!(molyuuctl::session::command_from_descriptor(&empty), None);
}

#[test]
fn error_descriptions_are_exact() {
    assert_eq!(
        SessionInstanceError::DefaultSessionNotSet.get_description(),
        "Default session is not set or no session is specified."
    );
    assert_eq!(
        SessionInstanceError::SessionExists.get_description(),
        "Specific session already exists"
    );
    assert_eq!(
        LoginManagerInstanceError::UnknownCurrentManager.get_description(),
        "Default Manager is unsupported or it is not set."
    );
    assert_eq!(
        LoginManagerInstanceError::ManagerAlreadyDefault.get_description(),
        "Specific manager is already current login manager."
    );
    assert_eq!(
        ControlError::Session(SessionInstanceError::UnknownProtocol).get_description(),
        "Session Protocol is unknown or not supported."
    );
}

#[test]
fn protocol_identifiers_round_trip() {
    assert_eq!(Protocol::X11.as_config_str(), "x11");
    assert_eq!(Protocol::Wayland.as_config_str(), "wayland");
    assert_eq!(molyuuctl::protocol::protocol_of_str("x11"), Some(Protocol::X11));
    assert_eq!(molyuuctl::protocol::protocol_of_str("wayland"), Some(Protocol::Wayland));
    assert_eq!(molyuuctl::protocol::protocol_of_str("X11"), None);
}
