use vstd::prelude::*;

use crate::config::{
    find_record_index, lemma_distinct_records_push, lemma_distinct_records_remove,
    lemma_record_map_contains, lemma_record_map_get, lemma_record_map_push,
    lemma_record_map_remove, opt_view, record_map_of, Configuration, RecordModel, SessionRecord,
    SessionTableModel,
};
use crate::errors::{ControlError, LockError, SessionInstanceError};
use crate::ini_doc::{ini_doc, ini_get};
use crate::manager::{
    get_current_manager, spec_base_doc, spec_built_manager, spec_current_manager_kind,
    spec_mirrored_login, spec_opt_doc_owned, spec_saved_doc, ManagerModel,
};
use crate::lock::{read_lock_payload, Lock, LockEntryModel, LockSpace};
use crate::protocol::{protocol_of_str, spec_protocol_of, Protocol};
use crate::util::{opt_str_is, str_eq};

verus! {

/// Directory of X11 desktop-session descriptors.
pub const SYSTEM_XSESSIONS_PATH: &'static str = "/usr/share/xsessions";

/// Directory of Wayland desktop-session descriptors.
pub const SYSTEM_WAYLAND_SESSIONS_PATH: &'static str = "/usr/share/wayland-sessions";

/// Name of the lock that serializes session startup across processes.
pub const SESSION_STARTUP_LOCK: &'static str = "molyuuctl-session-startup-lock";

/// The read-only probe of installed desktop sessions: which descriptor
/// names exist under the X11 and the Wayland session directories. The
/// binary enumerates the directories once and hands the result in.
#[derive(Clone, Debug)]
pub struct SystemSessions {
    pub xsessions: Vec<String>,
    pub wayland_sessions: Vec<String>,
}

/// `n` is among the string views of `v`.
pub open spec fn seq_contains_str(v: Seq<String>, n: Seq<char>) -> bool {
    exists|i: int| 0 <= i < v.len() && v[i]@ == n
}

fn vec_contains_str(v: &Vec<String>, name: &str) -> (r: bool)
    ensures
        r == seq_contains_str(v@, name@),
{
    let mut i: usize = 0;
    while i < v.len()
        invariant
            i <= v@.len(),
            forall|j: int| 0 <= j < i ==> v@[j]@ != name@,
        decreases v@.len() - i,
    {
        if str_eq(v[i].as_str(), name) {
            assert(seq_contains_str(v@, name@));
            return true;
        }
        i = i + 1;
    }
    false
}

impl SystemSessions {
    /// An X11 descriptor named `n` is installed.
    pub open spec fn spec_has_x(self, n: Seq<char>) -> bool {
        seq_contains_str(self.xsessions@, n)
    }

    /// A Wayland descriptor named `n` is installed.
    pub open spec fn spec_has_wayland(self, n: Seq<char>) -> bool {
        seq_contains_str(self.wayland_sessions@, n)
    }

    pub fn has_xsession(&self, name: &str) -> (r: bool)
        ensures
            r == self.spec_has_x(name@),
    {
        vec_contains_str(&self.xsessions, name)
    }

    pub fn has_wayland_session(&self, name: &str) -> (r: bool)
        ensures
            r == self.spec_has_wayland(name@),
    {
        vec_contains_str(&self.wayland_sessions, name)
    }
}

/// The protocol under which `real` is installed, probing the X11 directory
/// first.
pub open spec fn spec_find_in_system(sys: SystemSessions, rname: Seq<char>) -> Result<
    Protocol,
    SessionInstanceError,
> {
    if sys.spec_has_x(rname) {
        Ok(Protocol::X11)
    } else if sys.spec_has_wayland(rname) {
        Ok(Protocol::Wayland)
    } else {
        Err(SessionInstanceError::SessionNotFoundInSystem)
    }
}

/// A resolved session: a registry record together with the protocol it was
/// determined to run under.
#[derive(Clone, Debug)]
pub struct Session {
    pub reg_name: String,
    pub real_name: String,
    pub logout_command: Option<String>,
    pub protocol: Protocol,
}

/// Mathematical image of a resolved session.
pub struct SessionModel {
    pub reg_name: Seq<char>,
    pub real_name: Seq<char>,
    pub logout_command: Option<Seq<char>>,
    pub protocol: Protocol,
}

impl View for Session {
    type V = SessionModel;

    open spec fn view(&self) -> SessionModel {
        SessionModel {
            reg_name: self.reg_name@,
            real_name: self.real_name@,
            logout_command: opt_view(self.logout_command),
            protocol: self.protocol,
        }
    }
}

/// What constructing a session from explicit data yields: an explicit
/// protocol is validated against the registration name's descriptor in the
/// matching directory; an unspecified protocol is probed from the real name.
pub open spec fn spec_new_session(
    sys: SystemSessions,
    reg_name: Seq<char>,
    real_name: Seq<char>,
    logout_command: Option<Seq<char>>,
    protocol: Option<Protocol>,
) -> Result<SessionModel, SessionInstanceError> {
    match protocol {
        Some(Protocol::X11) => if sys.spec_has_x(reg_name) {
            Ok(SessionModel { reg_name, real_name, logout_command, protocol: Protocol::X11 })
        } else {
            Err(SessionInstanceError::SessionNotFoundInSystem)
        },
        Some(Protocol::Wayland) => if sys.spec_has_wayland(reg_name) {
            Ok(SessionModel { reg_name, real_name, logout_command, protocol: Protocol::Wayland })
        } else {
            Err(SessionInstanceError::SessionNotFoundInSystem)
        },
        None => match spec_find_in_system(sys, real_name) {
            Ok(p) => Ok(SessionModel { reg_name, real_name, logout_command, protocol: p }),
            Err(_) => Err(SessionInstanceError::SessionNotFoundInSystem),
        },
    }
}

/// The registration name an optional argument resolves to: the argument
/// itself, or the registry default.
pub open spec fn spec_resolve_reg_name(
    t: crate::config::SessionTableModel,
    arg: Option<Seq<char>>,
) -> Result<Seq<char>, SessionInstanceError> {
    match arg {
        Some(n) => Ok(n),
        None => match t.default {
            Some(d) => Ok(d),
            None => Err(SessionInstanceError::DefaultSessionNotSet),
        },
    }
}

/// The session a stored record resolves to: its stored protocol identifier
/// if it carries one (an unrecognized identifier is an error), else the
/// probed protocol of its real name.
pub open spec fn spec_record_session(
    sys: SystemSessions,
    name: Seq<char>,
    rec: RecordModel,
) -> Result<SessionModel, SessionInstanceError> {
    match rec.protocol {
        Some(p) => match spec_protocol_of(p) {
            Some(proto) => Ok(
                SessionModel {
                    reg_name: name,
                    real_name: rec.real_name,
                    logout_command: rec.logout_command,
                    protocol: proto,
                },
            ),
            None => Err(SessionInstanceError::UnknownProtocol),
        },
        None => match spec_find_in_system(sys, rec.real_name) {
            Ok(proto) => Ok(
                SessionModel {
                    reg_name: name,
                    real_name: rec.real_name,
                    logout_command: rec.logout_command,
                    protocol: proto,
                },
            ),
            Err(e) => Err(e),
        },
    }
}

/// What resolving a session from the registry yields, end to end.
pub open spec fn spec_from_config(
    t: crate::config::SessionTableModel,
    sys: SystemSessions,
    arg: Option<Seq<char>>,
) -> Result<SessionModel, SessionInstanceError> {
    match spec_resolve_reg_name(t, arg) {
        Err(e) => Err(e),
        Ok(name) => if !t.records.contains_key(name) {
            Err(SessionInstanceError::SessionNotFoundInConfig)
        } else {
            spec_record_session(sys, name, t.records[name])
        },
    }
}

impl Session {
    /// Construct a session from explicit data, validating that a matching
    /// desktop descriptor is installed.
    pub fn new(
        reg_name: String,
        real_name: String,
        logout_command: Option<String>,
        protocol: Option<Protocol>,
        system: &SystemSessions,
    ) -> (r: Result<Session, SessionInstanceError>)
        ensures
            match r {
                Ok(s) => spec_new_session(
                    *system,
                    reg_name@,
                    real_name@,
                    opt_view(logout_command),
                    protocol,
                ) == Ok::<SessionModel, SessionInstanceError>(s@),
                Err(e) => spec_new_session(
                    *system,
                    reg_name@,
                    real_name@,
                    opt_view(logout_command),
                    protocol,
                ) == Err::<SessionModel, SessionInstanceError>(e),
            },
    {
        let detected = match protocol {
            Some(Protocol::X11) => {
                if !system.has_xsession(reg_name.as_str()) {
                    return Err(SessionInstanceError::SessionNotFoundInSystem);
                }
                Protocol::X11
            },
            Some(Protocol::Wayland) => {
                if !system.has_wayland_session(reg_name.as_str()) {
                    return Err(SessionInstanceError::SessionNotFoundInSystem);
                }
                Protocol::Wayland
            },
            None => {
                match Self::find_session_in_system(real_name.as_str(), system) {
                    Ok(p) => p,
                    Err(_) => {
                        return Err(SessionInstanceError::SessionNotFoundInSystem);
                    },
                }
            },
        };
        Ok(Session { reg_name, real_name, logout_command, protocol: detected })
    }

    /// Probe the session directories for `real_session_name`, X11 first.
    pub fn find_session_in_system(real_session_name: &str, system: &SystemSessions) -> (r: Result<
        Protocol,
        SessionInstanceError,
    >)
        ensures
            r == spec_find_in_system(*system, real_session_name@),
    {
        if system.has_xsession(real_session_name) {
            Ok(Protocol::X11)
        } else if system.has_wayland_session(real_session_name) {
            Ok(Protocol::Wayland)
        } else {
            Err(SessionInstanceError::SessionNotFoundInSystem)
        }
    }

    /// Resolve a session from the registry: the named one, or the default
    /// when no name is given.
    pub fn from_config(
        session_name: Option<&str>,
        config: &Configuration,
        system: &SystemSessions,
    ) -> (r: Result<Session, SessionInstanceError>)
        requires
            config.wf(),
        ensures
            match r {
                Ok(s) => spec_from_config(config@.session, *system, spec_opt_str_view(session_name))
                    == Ok::<SessionModel, SessionInstanceError>(s@),
                Err(e) => spec_from_config(
                    config@.session,
                    *system,
                    spec_opt_str_view(session_name),
                ) == Err::<SessionModel, SessionInstanceError>(e),
            },
    {
        let name: String = match session_name {
            Some(n) => n.to_owned(),
            None => match &config.session.default {
                Some(d) => d.clone(),
                None => {
                    return Err(SessionInstanceError::DefaultSessionNotSet);
                },
            },
        };
        let idx = match find_record_index(&config.session.records, name.as_str()) {
            Some(i) => i,
            None => {
                proof {
                    lemma_record_map_contains(config.session.records@, name@);
                }
                return Err(SessionInstanceError::SessionNotFoundInConfig);
            },
        };
        proof {
            lemma_record_map_get(config.session.records@, idx as int);
        }
        let rec = &config.session.records[idx];
        let proto = match &rec.protocol {
            Some(p) => match protocol_of_str(p.as_str()) {
                Some(proto) => proto,
                None => {
                    return Err(SessionInstanceError::UnknownProtocol);
                },
            },
            None => {
                match Self::find_session_in_system(rec.real_name.as_str(), system) {
                    Ok(proto) => proto,
                    Err(e) => {
                        return Err(e);
                    },
                }
            },
        };
        Ok(
            Session {
                reg_name: name,
                real_name: rec.real_name.clone(),
                logout_command: match &rec.logout_command {
                    Some(c) => Some(c.clone()),
                    None => None,
                },
                protocol: proto,
            },
        )
    }

    /// The protocol this session runs under.
    pub fn get_protocol(&self) -> (r: Protocol)
        ensures
            r == self@.protocol,
    {
        self.protocol
    }

    /// The directory holding this session's desktop descriptor.
    pub fn descriptor_dir(&self) -> (r: &'static str)
        ensures
            self.protocol == Protocol::X11 ==> r@ == SYSTEM_XSESSIONS_PATH@,
            self.protocol == Protocol::Wayland ==> r@ == SYSTEM_WAYLAND_SESSIONS_PATH@,
    {
        match self.protocol {
            Protocol::X11 => SYSTEM_XSESSIONS_PATH,
            Protocol::Wayland => SYSTEM_WAYLAND_SESSIONS_PATH,
        }
    }

    /// The command that ends this session, owed exactly when one was
    /// configured.
    pub fn logout_command(&self) -> (r: Result<String, SessionInstanceError>)
        ensures
            match r {
                Ok(c) => self@.logout_command == Some(c@),
                Err(e) => e == SessionInstanceError::LogoutCommandNotSet && self@.logout_command
                    is None,
            },
    {
        match &self.logout_command {
            Some(c) => Ok(c.clone()),
            None => Err(SessionInstanceError::LogoutCommandNotSet),
        }
    }
}

/// The stored form of a freshly registered session: the protocol is always
/// written out explicitly.
pub open spec fn spec_registered_record(s: SessionModel) -> RecordModel {
    RecordModel {
        reg_name: s.reg_name,
        real_name: s.real_name,
        logout_command: s.logout_command,
        protocol: Some(s.protocol.config_str()),
    }
}

/// What renaming `old_n` to `new_n` does to the session namespace: the
/// record moves intact under its new key, and the default pointer follows
/// it; the one-shot pointer deliberately does not.
pub open spec fn spec_rename(
    t: SessionTableModel,
    old_n: Seq<char>,
    new_n: Seq<char>,
) -> SessionTableModel {
    SessionTableModel {
        records: t.records.remove(old_n).insert(
            new_n,
            RecordModel { reg_name: new_n, ..t.records[old_n] },
        ),
        default: if t.default == Some(old_n) {
            Some(new_n)
        } else {
            t.default
        },
        ..t
    }
}

/// What selecting a one-shot session does to the session namespace.
pub open spec fn spec_set_start_oneshot(t: SessionTableModel, name: Seq<char>) -> SessionTableModel {
    SessionTableModel { oneshot_session: Some(name), oneshot_started: Some(false), ..t }
}

/// A one-shot selection exists and has not run yet.
pub open spec fn spec_oneshot_pending(t: SessionTableModel) -> bool {
    t.oneshot_session is Some && t.oneshot_started == Some(false)
}

/// What the start-or-default decision does: a pending one-shot is marked
/// started and chosen; otherwise nothing changes and the default runs.
pub open spec fn spec_resolve_startup(t: SessionTableModel) -> (SessionTableModel, Option<
    Seq<char>,
>) {
    match t.oneshot_session {
        Some(n) => if t.oneshot_started == Some(false) {
            (SessionTableModel { oneshot_started: Some(true), ..t }, Some(n))
        } else {
            (t, None)
        },
        None => (t, None),
    }
}

impl Session {
    /// Persist this session under its registration name. Success is owed
    /// exactly when the name is still free.
    pub fn register(&self, config: &mut Configuration) -> (r: Result<(), SessionInstanceError>)
        requires
            old(config).wf(),
        ensures
            final(config).wf(),
            match r {
                Ok(()) => !old(config)@.session.records.contains_key(self.reg_name@) && final(config)@.session == (SessionTableModel {
                    records: old(config)@.session.records.insert(
                        self.reg_name@,
                        spec_registered_record(self@),
                    ),
                    ..old(config)@.session
                }) && final(config)@.login == old(config)@.login,
                Err(e) => e == SessionInstanceError::SessionExists && old(config)@.session.records.contains_key(self.reg_name@) && final(config)@ == old(config)@,
            },
    {
        match find_record_index(&config.session.records, self.reg_name.as_str()) {
            Some(i) => {
                proof {
                    lemma_record_map_contains(config.session.records@, self.reg_name@);
                }
                Err(SessionInstanceError::SessionExists)
            },
            None => {
                proof {
                    lemma_record_map_contains(config.session.records@, self.reg_name@);
                }
                let rec = SessionRecord {
                    reg_name: self.reg_name.clone(),
                    real_name: self.real_name.clone(),
                    logout_command: match &self.logout_command {
                        Some(c) => Some(c.clone()),
                        None => None,
                    },
                    protocol: Some(self.protocol.as_config_str().to_owned()),
                };
                proof {
                    lemma_record_map_push(config.session.records@, rec);
                    lemma_distinct_records_push(config.session.records@, rec);
                }
                config.session.records.push(rec);
                Ok(())
            },
        }
    }

    /// Move this session's record under a new registration name, following
    /// the default pointer if it pointed here. Success is owed exactly when
    /// the new name is still free.
    pub fn rename(&mut self, new_name: &str, config: &mut Configuration) -> (r: Result<
        (),
        SessionInstanceError,
    >)
        requires
            old(config).wf(),
            old(config)@.session.records.contains_key(old(self).reg_name@),
        ensures
            final(config).wf(),
            match r {
                Ok(()) => !old(config)@.session.records.contains_key(new_name@) && final(config)@.session == spec_rename(old(config)@.session, old(self).reg_name@, new_name@)
                    && final(config)@.login == old(config)@.login && final(self)@
                    == (SessionModel { reg_name: new_name@, ..old(self)@ }),
                Err(e) => e == SessionInstanceError::SessionExists && old(config)@.session.records.contains_key(new_name@) && final(config)@ == old(config)@
                    && *final(self) == *old(self),
            },
    {
        if let Some(_j) = find_record_index(&config.session.records, new_name) {
            proof {
                lemma_record_map_contains(config.session.records@, new_name@);
            }
            return Err(SessionInstanceError::SessionExists);
        }
        proof {
            lemma_record_map_contains(config.session.records@, new_name@);
        }
        let old_name = self.reg_name.clone();
        let i = match find_record_index(&config.session.records, old_name.as_str()) {
            Some(i) => i,
            None => {
                proof {
                    lemma_record_map_contains(config.session.records@, old(self).reg_name@);
                }
                // The record exists by precondition; this arm cannot run.
                assert(false);
                return Err(SessionInstanceError::SessionNotFoundInConfig);
            },
        };
        proof {
            lemma_record_map_get(config.session.records@, i as int);
            lemma_record_map_remove(config.session.records@, i as int);
        }
        let ghost pre = config.session.records@;
        let mut rec = config.session.records.remove(i);
        proof {
            lemma_distinct_records_remove(pre, i as int);
            lemma_record_map_contains(config.session.records@, new_name@);
        }
        rec.reg_name = new_name.to_owned();
        proof {
            lemma_record_map_push(config.session.records@, rec);
            lemma_distinct_records_push(config.session.records@, rec);
        }
        config.session.records.push(rec);
        self.reg_name = new_name.to_owned();
        if opt_str_is(&config.session.default, old_name.as_str()) {
            config.session.default = Some(new_name.to_owned());
        }
        Ok(())
    }

    /// Store a logout command on this session's record, inserting or
    /// overwriting alike.
    pub fn set_logout_command(&self, command: &str, config: &mut Configuration) -> (r: Result<
        (),
        SessionInstanceError,
    >)
        requires
            old(config).wf(),
            old(config)@.session.records.contains_key(self.reg_name@),
        ensures
            final(config).wf(),
            r is Ok,
            final(config)@.session == (SessionTableModel {
                records: old(config)@.session.records.insert(
                    self.reg_name@,
                    RecordModel {
                        logout_command: Some(command@),
                        ..old(config)@.session.records[self.reg_name@]
                    },
                ),
                ..old(config)@.session
            }),
            final(config)@.login == old(config)@.login,
    {
        let i = match find_record_index(&config.session.records, self.reg_name.as_str()) {
            Some(i) => i,
            None => {
                proof {
                    lemma_record_map_contains(config.session.records@, self.reg_name@);
                }
                // The record exists by precondition; this arm cannot run.
                assert(false);
                return Err(SessionInstanceError::SessionNotFoundInConfig);
            },
        };
        proof {
            lemma_record_map_get(config.session.records@, i as int);
            lemma_record_map_remove(config.session.records@, i as int);
        }
        let ghost pre = config.session.records@;
        let mut rec = config.session.records.remove(i);
        proof {
            lemma_distinct_records_remove(pre, i as int);
            lemma_record_map_contains(config.session.records@, rec.reg_name@);
        }
        rec.logout_command = Some(command.to_owned());
        proof {
            lemma_record_map_push(config.session.records@, rec);
            lemma_distinct_records_push(config.session.records@, rec);
            assert(old(config)@.session.records.remove(self.reg_name@).insert(
                self.reg_name@,
                RecordModel {
                    logout_command: Some(command@),
                    ..old(config)@.session.records[self.reg_name@]
                },
            ) =~= old(config)@.session.records.insert(
                self.reg_name@,
                RecordModel {
                    logout_command: Some(command@),
                    ..old(config)@.session.records[self.reg_name@]
                },
            ));
        }
        config.session.records.push(rec);
        Ok(())
    }

    /// Make this session the registry default.
    pub fn set_as_default(&self, config: &mut Configuration) -> (r: Result<
        (),
        SessionInstanceError,
    >)
        ensures
            r is Ok,
            final(config)@.session == (SessionTableModel {
                default: Some(self.reg_name@),
                ..old(config)@.session
            }),
            final(config)@.login == old(config)@.login,
            final(config).wf() == old(config).wf(),
    {
        config.session.default = Some(self.reg_name.clone());
        Ok(())
    }

    /// Select this session to run exactly once at the next start-or-default
    /// decision. The caller realigns the login manager afterwards, so the
    /// manager points at the protocol of whichever session will actually
    /// run next.
    pub fn set_start_oneshot(&self, config: &mut Configuration)
        ensures
            final(config)@.session == spec_set_start_oneshot(
                old(config)@.session,
                self.reg_name@,
            ),
            final(config)@.login == old(config)@.login,
            final(config).wf() == old(config).wf(),
    {
        config.session.oneshot_session = Some(self.reg_name.clone());
        config.session.oneshot_started = Some(false);
    }

    /// Remove this session's record. Removing the default session clears
    /// the default and forces autologin off through the login-manager
    /// coordinator before the record goes; removing any other session
    /// leaves the default and the login namespace untouched. On the
    /// default path the caller hands in the manager's external document
    /// and writes the returned one back.
    pub fn remove(
        &self,
        config: &mut Configuration,
        system: &SystemSessions,
        external: Option<ini::Ini>,
    ) -> (r: Result<Option<(ini::Ini, String)>, ControlError>)
        requires
            old(config).wf(),
        ensures
            final(config).wf(),
            old(config)@.session.default != Some(self.reg_name@) ==> r == Ok::<
                Option<(ini::Ini, String)>,
                ControlError,
            >(None) && final(config)@.session == (SessionTableModel {
                records: old(config)@.session.records.remove(self.reg_name@),
                ..old(config)@.session
            }) && final(config)@.login == old(config)@.login,
            old(config)@.session.default == Some(self.reg_name@) ==> ({
                let t1 = SessionTableModel { default: None, ..old(config)@.session };
                match spec_current_manager_kind(old(config)@.login) {
                    Err(le) => r == Err::<Option<(ini::Ini, String)>, ControlError>(
                        ControlError::Login(le),
                    ) && final(config)@.session == t1 && final(config)@.login == old(config)@.login,
                    Ok(kind) => match spec_built_manager(
                        kind,
                        spec_opt_doc_owned(external),
                        t1,
                        *system,
                    ) {
                        Err(se) => r == Err::<Option<(ini::Ini, String)>, ControlError>(
                            ControlError::Session(se),
                        ) && final(config)@.session == t1 && final(config)@.login == old(config)@.login,
                        Ok(m0) => ({
                            let m1 = ManagerModel { autologin: false, login_user: None, ..m0 };
                            match r {
                                Ok(Some(dp)) => ini_doc(dp.0) == spec_saved_doc(
                                    m1,
                                    spec_base_doc(external),
                                ) && dp.1@ == m1.metadata.config_path && final(config)@.session
                                    == (SessionTableModel {
                                    records: t1.records.remove(self.reg_name@),
                                    ..t1
                                }) && final(config)@.login == spec_mirrored_login(
                                    m1,
                                    old(config)@.login,
                                ) && final(config)@.login.autologin_enable == Some(false),
                                _ => false,
                            }
                        }),
                    },
                }
            }),
    {
        let is_default = opt_str_is(&config.session.default, self.reg_name.as_str());
        let mut write_effect: Option<(ini::Ini, String)> = None;
        if is_default {
            config.session.default = None;
            let mut m = {
                let ext_ref: Option<&ini::Ini> = match &external {
                    Some(d) => Some(d),
                    None => None,
                };
                match get_current_manager(config, system, ext_ref) {
                    Ok(m) => m,
                    Err(e) => {
                        return Err(e);
                    },
                }
            };
            match m.set_auto_login(false, None, external, config, system) {
                Ok(dp) => {
                    write_effect = Some(dp);
                },
                Err(_) => {
                    // Disabling autologin is always a valid combination.
                    assert(false);
                },
            }
        }
        match find_record_index(&config.session.records, self.reg_name.as_str()) {
            Some(i) => {
                proof {
                    lemma_record_map_remove(config.session.records@, i as int);
                }
                let ghost pre = config.session.records@;
                config.session.records.remove(i);
                proof {
                    lemma_distinct_records_remove(pre, i as int);
                }
            },
            None => {
                proof {
                    lemma_record_map_contains(config.session.records@, self.reg_name@);
                    assert(record_map_of(config.session.records@).remove(self.reg_name@)
                        =~= record_map_of(config.session.records@));
                }
            },
        }
        Ok(write_effect)
    }

    /// Take the startup lock for this session, with the registration name
    /// as the lock payload, failing fast while a concurrent launch holds it.
    pub fn acquire_startup_lock(&self, space: &mut LockSpace) -> (r: Result<Lock, LockError>)
        requires
            old(space).wf(),
        ensures
            final(space).wf(),
            match r {
                Ok(lock) => !old(space).spec_held(SESSION_STARTUP_LOCK@) && lock.held
                    && lock.name@ == SESSION_STARTUP_LOCK@ && opt_view(lock.content) == Some(
                    self.reg_name@,
                ) && final(space).map() == old(space).map().insert(
                    SESSION_STARTUP_LOCK@,
                    LockEntryModel { content: self.reg_name@, held: true },
                ),
                Err(e) => e == LockError::FileIsLocked && old(space).spec_held(
                    SESSION_STARTUP_LOCK@,
                ) && final(space).map() == old(space).map(),
            },
    {
        let mut lock = Lock::new(SESSION_STARTUP_LOCK, Some(self.reg_name.clone()));
        match lock.lock(space) {
            Ok(()) => Ok(lock),
            Err(e) => Err(e),
        }
    }
}

/// Decide what the start-or-default operation launches: a pending one-shot
/// session is marked started first, so a crash mid-launch cannot replay it;
/// otherwise the decision falls to the default. The caller persists the
/// marking before launching anything.
pub fn resolve_startup_session(config: &mut Configuration) -> (r: Option<String>)
    ensures
        final(config).wf() == old(config).wf(),
        final(config)@.login == old(config)@.login,
        final(config)@.session == spec_resolve_startup(old(config)@.session).0,
        opt_view(r) == spec_resolve_startup(old(config)@.session).1,
{
    let pending_name: Option<String> = match (
        &config.session.oneshot_session,
        &config.session.oneshot_started,
    ) {
        (Some(n), Some(started)) => if !*started {
            Some(n.clone())
        } else {
            None
        },
        _ => None,
    };
    match pending_name {
        Some(name) => {
            config.session.oneshot_started = Some(true);
            Some(name)
        },
        None => None,
    }
}

impl Session {
    /// Resolve the registry default.
    pub fn get_default_session(config: &Configuration, system: &SystemSessions) -> (r: Result<
        Session,
        SessionInstanceError,
    >)
        requires
            config.wf(),
        ensures
            match r {
                Ok(s) => spec_from_config(config@.session, *system, None) == Ok::<
                    SessionModel,
                    SessionInstanceError,
                >(s@),
                Err(e) => spec_from_config(config@.session, *system, None) == Err::<
                    SessionModel,
                    SessionInstanceError,
                >(e),
            },
    {
        Session::from_config(None, config, system)
    }

    /// Resolve the pending one-shot session, if one exists and has not started.
    pub fn get_oneshot_session(config: &Configuration, system: &SystemSessions) -> (r: Result<
        Option<Session>,
        SessionInstanceError,
    >)
        requires
            config.wf(),
        ensures
            !spec_oneshot_pending(config@.session) ==> r == Ok::<
                Option<Session>,
                SessionInstanceError,
            >(None),
            spec_oneshot_pending(config@.session) ==> (match config@.session.oneshot_session {
                Some(n) => match r {
                    Ok(Some(s)) => spec_from_config(config@.session, *system, Some(n)) == Ok::<
                        SessionModel,
                        SessionInstanceError,
                    >(s@),
                    Ok(None) => false,
                    Err(e) => spec_from_config(config@.session, *system, Some(n)) == Err::<
                        SessionModel,
                        SessionInstanceError,
                    >(e),
                },
                None => false,
            }),
    {
        let pending_name: Option<String> = match (
            &config.session.oneshot_session,
            &config.session.oneshot_started,
        ) {
            (Some(n), Some(started)) => if !*started {
                Some(n.clone())
            } else {
                None
            },
            _ => None,
        };
        match pending_name {
            Some(name) => match Session::from_config(Some(name.as_str()), config, system) {
                Ok(s) => Ok(Some(s)),
                Err(e) => Err(e),
            },
            None => Ok(None),
        }
    }

    /// Resolve the session whose launch currently holds the startup lock, if
    /// any: the lock-state file's payload is the running registration name.
    pub fn get_running_session(
        config: &Configuration,
        system: &SystemSessions,
        space: &LockSpace,
    ) -> (r: Result<Option<Session>, SessionInstanceError>)
        requires
            config.wf(),
            space.wf(),
        ensures
            !space.spec_held(SESSION_STARTUP_LOCK@) ==> r == Ok::<
                Option<Session>,
                SessionInstanceError,
            >(None),
            space.spec_held(SESSION_STARTUP_LOCK@) ==> (match r {
                Ok(Some(s)) => spec_from_config(
                    config@.session,
                    *system,
                    Some(space.map()[SESSION_STARTUP_LOCK@].content),
                ) == Ok::<SessionModel, SessionInstanceError>(s@),
                Ok(None) => false,
                Err(e) => spec_from_config(
                    config@.session,
                    *system,
                    Some(space.map()[SESSION_STARTUP_LOCK@].content),
                ) == Err::<SessionModel, SessionInstanceError>(e),
            }),
    {
        let probe = Lock::new(SESSION_STARTUP_LOCK, None);
        if probe.is_locked(space) {
            match read_lock_payload(space, SESSION_STARTUP_LOCK) {
                Some(payload) => match Session::from_config(Some(payload.as_str()), config, system) {
                    Ok(s) => Ok(Some(s)),
                    Err(e) => Err(e),
                },
                None => {
                    // A held lock always has its lock-state file.
                    assert(false);
                    Ok(None)
                },
            }
        } else {
            Ok(None)
        }
    }
}

/// A one-shot selection preempts the default exactly once: selecting `x`
/// and then deciding twice launches `x` first (marking it started), and the
/// second decision leaves the state alone and falls to the then-current
/// default.
pub proof fn lemma_oneshot_runs_once(t: SessionTableModel, x: Seq<char>)
    ensures
        ({
            let t1 = spec_set_start_oneshot(t, x);
            let first = spec_resolve_startup(t1);
            let second = spec_resolve_startup(first.0);
            &&& first.1 == Some(x)
            &&& second.1 == None::<Seq<char>>
            &&& second.0 == first.0
            &&& first.0.default == t.default
            &&& (t.default matches Some(d) ==> spec_resolve_reg_name(second.0, second.1) == Ok::<
                Seq<char>,
                SessionInstanceError,
            >(d))
        }),
{
}

/// Renaming moves a record intact: afterwards the new name resolves to the
/// old record's data, and the old name is no longer found in the registry.
pub proof fn lemma_rename_then_lookup(
    t: SessionTableModel,
    sys: SystemSessions,
    a: Seq<char>,
    b: Seq<char>,
)
    requires
        t.records.contains_key(a),
        !t.records.contains_key(b),
    ensures
        ({
            let t1 = spec_rename(t, a, b);
            &&& t1.records.contains_key(b)
            &&& t1.records[b].real_name == t.records[a].real_name
            &&& t1.records[b].logout_command == t.records[a].logout_command
            &&& t1.records[b].protocol == t.records[a].protocol
            &&& spec_from_config(t1, sys, Some(b)) == spec_record_session(sys, b, t1.records[b])
            &&& spec_from_config(t1, sys, Some(a)) == Err::<SessionModel, SessionInstanceError>(
                SessionInstanceError::SessionNotFoundInConfig,
            )
        }),
{
}

/// The image of an optional string slice.
pub open spec fn spec_opt_str_view(o: Option<&str>) -> Option<Seq<char>> {
    match o {
        Some(s) => Some(s@),
        None => None,
    }
}

/// The shell command a desktop descriptor specifies, if any.
pub fn command_from_descriptor(descriptor: &ini::Ini) -> (r: Option<String>)
    ensures
        r is Some <==> ini_doc(*descriptor).contains_key(("Desktop Entry"@, "Exec"@)),
        r matches Some(c) ==> c@ == ini_doc(*descriptor)[("Desktop Entry"@, "Exec"@)],
{
    ini_get(descriptor, "Desktop Entry", "Exec")
}

/// The human-readable name a desktop descriptor specifies, if any.
pub fn name_from_descriptor(descriptor: &ini::Ini) -> (r: Option<String>)
    ensures
        r is Some <==> ini_doc(*descriptor).contains_key(("Desktop Entry"@, "Name"@)),
        r matches Some(c) ==> c@ == ini_doc(*descriptor)[("Desktop Entry"@, "Name"@)],
{
    ini_get(descriptor, "Desktop Entry", "Name")
}

} // verus!
