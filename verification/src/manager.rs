use vstd::prelude::*;

use crate::config::{opt_view, Configuration, LoginTableModel, SessionTableModel};
use crate::errors::{ControlError, LoginManagerInstanceError, SessionInstanceError};
use crate::ini_doc::{ini_delete, ini_doc, ini_doc_empty, ini_empty, ini_set, IniDocView};
use crate::protocol::Protocol;
use crate::session::{spec_from_config, spec_oneshot_pending, Session, SystemSessions};
use crate::util::{opt_str_is, str_eq};

verus! {

/// The fixed session name the login manager launches for X11 selections.
pub const MOLYUU_REDIRECT_X11_SESSION: &'static str = "molyuu-redirect-x11";

/// The fixed session name the login manager launches for Wayland selections.
pub const MOLYUU_REDIRECT_WAYLAND_SESSION: &'static str = "molyuu-redirect-wayland";

/// Drop-in configuration file this system owns for LightDM.
pub const LIGHTDM_CUSTOM_CONFIG_PATH: &'static str =
    "/etc/lightdm/lightdm.conf.d/10-molyuud-session.conf";

/// Drop-in configuration file this system owns for SDDM.
pub const SDDM_CUSTOM_CONFIG_PATH: &'static str = "/etc/sddm.conf.d/molyuuctl.conf";

/// The login managers this system can drive.
#[derive(Clone, Copy, PartialEq, Eq, Structural, Debug)]
pub enum SupportedManager {
    LightDM,
    SDDM,
}

/// One auxiliary key a manager needs toggled alongside autologin, with its
/// value in the disabled and in the enabled state.
#[derive(Clone, Debug)]
pub struct AuxConfig {
    pub section: String,
    pub key: String,
    pub disabled_value: String,
    pub enabled_value: String,
}

/// Mathematical image of an auxiliary key.
pub struct AuxConfigModel {
    pub section: Seq<char>,
    pub key: Seq<char>,
    pub disabled_value: Seq<char>,
    pub enabled_value: Seq<char>,
}

impl View for AuxConfig {
    type V = AuxConfigModel;

    open spec fn view(&self) -> AuxConfigModel {
        AuxConfigModel {
            section: self.section@,
            key: self.key@,
            disabled_value: self.disabled_value@,
            enabled_value: self.enabled_value@,
        }
    }
}

/// The auxiliary keys of a manager, if it has any.
pub type ConfigList = Option<Vec<AuxConfig>>;

/// Everything that distinguishes one login manager from another: a fixed
/// lookup table keyed by [`SupportedManager`], not user-editable.
#[derive(Clone, Debug)]
pub struct ManagerMetadata {
    pub systemd_unit: String,
    pub config_path: String,
    pub autologin_section_name: String,
    pub autologin_session_key_name: String,
    pub autologin_user_key_name: String,
    pub autologin_related_other_configs: ConfigList,
}

/// Mathematical image of manager metadata.
pub struct MetadataModel {
    pub systemd_unit: Seq<char>,
    pub config_path: Seq<char>,
    pub autologin_section_name: Seq<char>,
    pub autologin_session_key_name: Seq<char>,
    pub autologin_user_key_name: Seq<char>,
    pub autologin_related_other_configs: Option<Seq<AuxConfigModel>>,
}

impl View for ManagerMetadata {
    type V = MetadataModel;

    open spec fn view(&self) -> MetadataModel {
        MetadataModel {
            systemd_unit: self.systemd_unit@,
            config_path: self.config_path@,
            autologin_section_name: self.autologin_section_name@,
            autologin_session_key_name: self.autologin_session_key_name@,
            autologin_user_key_name: self.autologin_user_key_name@,
            autologin_related_other_configs: match self.autologin_related_other_configs {
                Some(v) => Some(v@.map_values(|a: AuxConfig| a@)),
                None => None,
            },
        }
    }
}

/// The fixed metadata table, by manager kind.
pub open spec fn spec_metadata_for(kind: SupportedManager) -> MetadataModel {
    match kind {
        SupportedManager::LightDM => MetadataModel {
            systemd_unit: "lightdm"@,
            config_path: "/etc/lightdm/lightdm.conf.d/10-molyuud-session.conf"@,
            autologin_section_name: "Seat:*"@,
            autologin_session_key_name: "autologin-session"@,
            autologin_user_key_name: "autologin-user"@,
            autologin_related_other_configs: None,
        },
        SupportedManager::SDDM => MetadataModel {
            systemd_unit: "sddm"@,
            config_path: "/etc/sddm.conf.d/molyuuctl.conf"@,
            autologin_section_name: "Autologin"@,
            autologin_session_key_name: "Session"@,
            autologin_user_key_name: "User"@,
            autologin_related_other_configs: Some(
                seq![
                    AuxConfigModel {
                        section: "Autologin"@,
                        key: "Relogin"@,
                        disabled_value: "false"@,
                        enabled_value: "true"@,
                    },
                ],
            ),
        },
    }
}

impl ManagerMetadata {
    /// The metadata of a supported manager.
    pub fn build_for_supported_manager(manager: SupportedManager) -> (r: ManagerMetadata)
        ensures
            r@ == spec_metadata_for(manager),
    {
        match manager {
            SupportedManager::LightDM => {
                let r = ManagerMetadata {
                    systemd_unit: "lightdm".to_owned(),
                    config_path: LIGHTDM_CUSTOM_CONFIG_PATH.to_owned(),
                    autologin_section_name: "Seat:*".to_owned(),
                    autologin_session_key_name: "autologin-session".to_owned(),
                    autologin_user_key_name: "autologin-user".to_owned(),
                    autologin_related_other_configs: None,
                };
                r
            },
            SupportedManager::SDDM => {
                let aux = AuxConfig {
                    section: "Autologin".to_owned(),
                    key: "Relogin".to_owned(),
                    disabled_value: "false".to_owned(),
                    enabled_value: "true".to_owned(),
                };
                let mut list: Vec<AuxConfig> = Vec::new();
                list.push(aux);
                let r = ManagerMetadata {
                    systemd_unit: "sddm".to_owned(),
                    config_path: SDDM_CUSTOM_CONFIG_PATH.to_owned(),
                    autologin_section_name: "Autologin".to_owned(),
                    autologin_session_key_name: "Session".to_owned(),
                    autologin_user_key_name: "User".to_owned(),
                    autologin_related_other_configs: Some(list),
                };
                proof {
                    assert(r@.autologin_related_other_configs == spec_metadata_for(
                        SupportedManager::SDDM,
                    ).autologin_related_other_configs) by {
                        assert(r.autologin_related_other_configs matches Some(v) && v@.map_values(
                            |a: AuxConfig| a@,
                        ) =~= seq![
                            AuxConfigModel {
                                section: "Autologin"@,
                                key: "Relogin"@,
                                disabled_value: "false"@,
                                enabled_value: "true"@,
                            },
                        ]);
                    };
                }
                r
            },
        }
    }
}

fn clone_aux_vec(v: &Vec<AuxConfig>) -> (r: Vec<AuxConfig>)
    ensures
        r@.len() == v@.len(),
        forall|j: int| 0 <= j < v@.len() ==> r@[j]@ == v@[j]@,
        r@.map_values(|a: AuxConfig| a@) == v@.map_values(|a: AuxConfig| a@),
{
    let mut r: Vec<AuxConfig> = Vec::new();
    let mut i: usize = 0;
    while i < v.len()
        invariant
            i <= v@.len(),
            r@.len() == i,
            forall|j: int| 0 <= j < i ==> r@[j]@ == v@[j]@,
        decreases v@.len() - i,
    {
        let e = &v[i];
        r.push(
            AuxConfig {
                section: e.section.clone(),
                key: e.key.clone(),
                disabled_value: e.disabled_value.clone(),
                enabled_value: e.enabled_value.clone(),
            },
        );
        i = i + 1;
    }
    proof {
        assert(r@.map_values(|a: AuxConfig| a@) =~= v@.map_values(|a: AuxConfig| a@));
    }
    r
}

impl ManagerMetadata {
    /// An identical copy, field by field.
    pub fn duplicate(&self) -> (r: ManagerMetadata)
        ensures
            r@ == self@,
    {
        ManagerMetadata {
            systemd_unit: self.systemd_unit.clone(),
            config_path: self.config_path.clone(),
            autologin_section_name: self.autologin_section_name.clone(),
            autologin_session_key_name: self.autologin_session_key_name.clone(),
            autologin_user_key_name: self.autologin_user_key_name.clone(),
            autologin_related_other_configs: match &self.autologin_related_other_configs {
                Some(v) => Some(clone_aux_vec(v)),
                None => None,
            },
        }
    }
}

/// Step-by-step construction of manager metadata, for a manager this
/// system does not know out of the box.
pub struct ManagerBuilder(pub ManagerMetadata);

impl ManagerBuilder {
    pub fn new() -> (r: ManagerBuilder)
        ensures
            r.0@ == (MetadataModel {
                systemd_unit: ""@,
                config_path: ""@,
                autologin_section_name: ""@,
                autologin_session_key_name: ""@,
                autologin_user_key_name: ""@,
                autologin_related_other_configs: None,
            }),
    {
        ManagerBuilder(
            ManagerMetadata {
                systemd_unit: "".to_owned(),
                config_path: "".to_owned(),
                autologin_section_name: "".to_owned(),
                autologin_session_key_name: "".to_owned(),
                autologin_user_key_name: "".to_owned(),
                autologin_related_other_configs: None,
            },
        )
    }

    pub fn use_manager(self, manager: SupportedManager) -> (r: ManagerBuilder)
        ensures
            r.0@ == spec_metadata_for(manager),
    {
        ManagerBuilder(ManagerMetadata::build_for_supported_manager(manager))
    }

    pub fn systemd_unit(self, systemd_unit: &str) -> (r: ManagerBuilder)
        ensures
            r.0@ == (MetadataModel { systemd_unit: systemd_unit@, ..self.0@ }),
    {
        let mut meta = self.0;
        meta.systemd_unit = systemd_unit.to_owned();
        ManagerBuilder(meta)
    }

    pub fn use_config(self, config_path: &str) -> (r: ManagerBuilder)
        ensures
            r.0@ == (MetadataModel { config_path: config_path@, ..self.0@ }),
    {
        let mut meta = self.0;
        meta.config_path = config_path.to_owned();
        ManagerBuilder(meta)
    }

    pub fn autologin_section(self, section_name: &str) -> (r: ManagerBuilder)
        ensures
            r.0@ == (MetadataModel { autologin_section_name: section_name@, ..self.0@ }),
    {
        let mut meta = self.0;
        meta.autologin_section_name = section_name.to_owned();
        ManagerBuilder(meta)
    }

    pub fn session_key(self, session_key: &str) -> (r: ManagerBuilder)
        ensures
            r.0@ == (MetadataModel { autologin_session_key_name: session_key@, ..self.0@ }),
    {
        let mut meta = self.0;
        meta.autologin_session_key_name = session_key.to_owned();
        ManagerBuilder(meta)
    }

    pub fn user_key(self, user_key: &str) -> (r: ManagerBuilder)
        ensures
            r.0@ == (MetadataModel { autologin_user_key_name: user_key@, ..self.0@ }),
    {
        let mut meta = self.0;
        meta.autologin_user_key_name = user_key.to_owned();
        ManagerBuilder(meta)
    }

    pub fn other_related_configs(self, config_list: ConfigList) -> (r: ManagerBuilder)
        ensures
            r.0@ == (MetadataModel {
                autologin_related_other_configs: spec_config_list_view(config_list),
                ..self.0@
            }),
    {
        let mut meta = self.0;
        meta.autologin_related_other_configs = config_list;
        ManagerBuilder(meta)
    }

    /// Construct the manager this metadata describes, reading its current
    /// external configuration and the registry's session selection.
    pub fn build(
        &self,
        external: Option<&ini::Ini>,
        config: &Configuration,
        system: &SystemSessions,
    ) -> (r: Result<Manager, SessionInstanceError>)
        requires
            config.wf(),
        ensures
            match r {
                Ok(m) => spec_current_session_type(config@.session, *system) == Ok::<
                    Option<Protocol>,
                    SessionInstanceError,
                >(m.session_type) && m.metadata@ == self.0@ && m.autologin
                    == spec_autologin_of_doc(spec_opt_doc(external), self.0@).0 && opt_view(
                    m.login_user,
                ) == spec_autologin_of_doc(spec_opt_doc(external), self.0@).1,
                Err(e) => spec_current_session_type(config@.session, *system) == Err::<
                    Option<Protocol>,
                    SessionInstanceError,
                >(e),
            },
    {
        Manager::new(self.0.duplicate(), external, config, system)
    }
}

/// The image of a list of auxiliary keys.
pub open spec fn spec_config_list_view(c: ConfigList) -> Option<Seq<AuxConfigModel>> {
    match c {
        Some(v) => Some(v@.map_values(|a: AuxConfig| a@)),
        None => None,
    }
}

/// The image of an optionally loaded external document.
pub open spec fn spec_opt_doc(o: Option<&ini::Ini>) -> Option<IniDocView> {
    match o {
        Some(i) => Some(ini_doc(*i)),
        None => None,
    }
}

/// The document an optionally loaded external file starts from: its own
/// image, or the empty one when the file did not exist.
pub open spec fn spec_base_doc(existing: Option<ini::Ini>) -> IniDocView {
    match existing {
        Some(i) => ini_doc(i),
        None => ini_doc_empty(),
    }
}

/// The protocol of the session selection the login manager must point at:
/// the pending one-shot session's if one exists, else the default's; no
/// selection at all is not an error here.
pub open spec fn spec_current_session_type(
    t: SessionTableModel,
    sys: SystemSessions,
) -> Result<Option<Protocol>, SessionInstanceError> {
    if spec_oneshot_pending(t) {
        match t.oneshot_session {
            Some(n) => match spec_from_config(t, sys, Some(n)) {
                Ok(m) => Ok(Some(m.protocol)),
                Err(e) => Err(e),
            },
            None => Ok(None),
        }
    } else {
        match spec_from_config(t, sys, None) {
            Ok(m) => Ok(Some(m.protocol)),
            Err(SessionInstanceError::DefaultSessionNotSet) => Ok(None),
            Err(e) => Err(e),
        }
    }
}

/// The autologin state an external document shows: enabled exactly when
/// the autologin session key names one of the two redirect sessions, and
/// the configured user, whether or not autologin is on.
pub open spec fn spec_autologin_of_doc(doc: Option<IniDocView>, meta: MetadataModel) -> (
    bool,
    Option<Seq<char>>,
) {
    match doc {
        Some(d) => {
            let skey = (meta.autologin_section_name, meta.autologin_session_key_name);
            let ukey = (meta.autologin_section_name, meta.autologin_user_key_name);
            (
                d.contains_key(skey) && (d[skey] == "molyuu-redirect-wayland"@ || d[skey]
                    == "molyuu-redirect-x11"@),
                if d.contains_key(ukey) {
                    Some(d[ukey])
                } else {
                    None
                },
            )
        },
        None => (false, None),
    }
}

/// The owner of the login-manager identity and the autologin/redirect
/// scheme. It never points the external manager at a real session, only at
/// a redirect session of the selected protocol.
#[derive(Debug)]
pub struct Manager {
    pub autologin: bool,
    pub session_type: Option<Protocol>,
    pub login_user: Option<String>,
    pub metadata: ManagerMetadata,
}

/// Mathematical image of a manager.
pub struct ManagerModel {
    pub autologin: bool,
    pub session_type: Option<Protocol>,
    pub login_user: Option<Seq<char>>,
    pub metadata: MetadataModel,
}

impl View for Manager {
    type V = ManagerModel;

    open spec fn view(&self) -> ManagerModel {
        ManagerModel {
            autologin: self.autologin,
            session_type: self.session_type,
            login_user: opt_view(self.login_user),
            metadata: self.metadata@,
        }
    }
}

/// The manager writes its autologin keys only with a user, a session
/// protocol and autologin all present.
pub open spec fn spec_manager_active(m: ManagerModel) -> bool {
    m.autologin && m.login_user is Some && m.session_type is Some
}

/// The redirect session name for a protocol.
pub open spec fn spec_redirect_session(p: Protocol) -> Seq<char> {
    match p {
        Protocol::X11 => "molyuu-redirect-x11"@,
        Protocol::Wayland => "molyuu-redirect-wayland"@,
    }
}

/// A document with every auxiliary key set to its value for the given
/// autologin state.
pub open spec fn spec_apply_aux(
    doc: IniDocView,
    aux: Seq<AuxConfigModel>,
    enabled: bool,
) -> IniDocView
    decreases aux.len(),
{
    if aux.len() == 0 {
        doc
    } else {
        let rest = spec_apply_aux(doc, aux.drop_last(), enabled);
        let e = aux.last();
        rest.insert(
            (e.section, e.key),
            if enabled {
                e.enabled_value
            } else {
                e.disabled_value
            },
        )
    }
}

/// What saving a manager writes into its external document: with autologin
/// fully configured, the user key, the session key pointing at the redirect
/// session of the selected protocol, and the auxiliary keys enabled; else
/// the session key removed (the user key deliberately kept) and the
/// auxiliary keys disabled.
pub open spec fn spec_saved_doc(m: ManagerModel, base: IniDocView) -> IniDocView {
    let aux = match m.metadata.autologin_related_other_configs {
        Some(a) => a,
        None => Seq::empty(),
    };
    let sect = m.metadata.autologin_section_name;
    if spec_manager_active(m) {
        let user = match m.login_user {
            Some(u) => u,
            None => Seq::empty(),
        };
        let with_user = base.insert((sect, m.metadata.autologin_user_key_name), user);
        let with_session = match m.session_type {
            Some(p) => with_user.insert(
                (sect, m.metadata.autologin_session_key_name),
                spec_redirect_session(p),
            ),
            None => with_user,
        };
        spec_apply_aux(with_session, aux, true)
    } else {
        spec_apply_aux(
            base.remove((sect, m.metadata.autologin_session_key_name)),
            aux,
            false,
        )
    }
}

/// The login namespace after a save mirrored the manager's state into it:
/// the enable flag always, the user only when one is set.
pub open spec fn spec_mirrored_login(m: ManagerModel, l: LoginTableModel) -> LoginTableModel {
    LoginTableModel {
        autologin_enable: Some(m.autologin),
        autologin_user: match m.login_user {
            Some(u) => Some(u),
            None => l.autologin_user,
        },
        ..l
    }
}

fn apply_aux_configs(doc: &mut ini::Ini, aux: &Vec<AuxConfig>, enabled: bool)
    ensures
        ini_doc(*final(doc)) == spec_apply_aux(
            ini_doc(*old(doc)),
            aux@.map_values(|a: AuxConfig| a@),
            enabled,
        ),
{
    let ghost base = ini_doc(*doc);
    let ghost models = aux@.map_values(|a: AuxConfig| a@);
    let mut k: usize = 0;
    while k < aux.len()
        invariant
            k <= aux@.len(),
            models == aux@.map_values(|a: AuxConfig| a@),
            ini_doc(*doc) == spec_apply_aux(base, models.take(k as int), enabled),
        decreases aux@.len() - k,
    {
        let entry = &aux[k];
        let value = if enabled {
            entry.enabled_value.as_str()
        } else {
            entry.disabled_value.as_str()
        };
        ini_set(doc, entry.section.as_str(), entry.key.as_str(), value);
        proof {
            assert(models.take(k as int + 1).drop_last() =~= models.take(k as int));
            assert(models.take(k as int + 1).last() == models[k as int]);
        }
        k = k + 1;
    }
    proof {
        assert(models.take(aux@.len() as int) =~= models);
    }
}

impl Manager {
    /// Construct a manager from its metadata, the current content of its
    /// external configuration file (if that file exists), and the
    /// registry's current session selection.
    pub fn new(
        metadata: ManagerMetadata,
        external: Option<&ini::Ini>,
        config: &Configuration,
        system: &SystemSessions,
    ) -> (r: Result<Manager, SessionInstanceError>)
        requires
            config.wf(),
        ensures
            match r {
                Ok(m) => spec_current_session_type(config@.session, *system) == Ok::<
                    Option<Protocol>,
                    SessionInstanceError,
                >(m.session_type) && m.metadata@ == metadata@ && m.autologin
                    == spec_autologin_of_doc(spec_opt_doc(external), metadata@).0 && opt_view(
                    m.login_user,
                ) == spec_autologin_of_doc(spec_opt_doc(external), metadata@).1,
                Err(e) => spec_current_session_type(config@.session, *system) == Err::<
                    Option<Protocol>,
                    SessionInstanceError,
                >(e),
            },
    {
        let session_type: Option<Protocol> = match Session::get_oneshot_session(config, system) {
            Err(e) => {
                return Err(e);
            },
            Ok(Some(s)) => Some(s.get_protocol()),
            Ok(None) => match Session::get_default_session(config, system) {
                Ok(s) => Some(s.get_protocol()),
                Err(SessionInstanceError::DefaultSessionNotSet) => None,
                Err(e) => {
                    return Err(e);
                },
            },
        };
        let (autologin, login_user): (bool, Option<String>) = match external {
            Some(doc) => {
                let sess = crate::ini_doc::ini_get(
                    doc,
                    metadata.autologin_section_name.as_str(),
                    metadata.autologin_session_key_name.as_str(),
                );
                let user = crate::ini_doc::ini_get(
                    doc,
                    metadata.autologin_section_name.as_str(),
                    metadata.autologin_user_key_name.as_str(),
                );
                let auto = match &sess {
                    Some(v) => str_eq(v.as_str(), MOLYUU_REDIRECT_WAYLAND_SESSION) || str_eq(
                        v.as_str(),
                        MOLYUU_REDIRECT_X11_SESSION,
                    ),
                    None => false,
                };
                (auto, user)
            },
            None => (false, None),
        };
        Ok(Manager { autologin, session_type, login_user, metadata })
    }

    /// Rewrite the external document for this manager's state and mirror
    /// that state into the login namespace. The caller writes the returned
    /// document at the returned path through the privileged-write
    /// collaborator.
    pub fn save_config(&self, existing: Option<ini::Ini>, config: &mut Configuration) -> (r: (
        ini::Ini,
        String,
    ))
        ensures
            ini_doc(r.0) == spec_saved_doc(self@, spec_base_doc(existing)),
            r.1@ == self.metadata@.config_path,
            final(config)@.login == spec_mirrored_login(self@, old(config)@.login),
            final(config)@.session == old(config)@.session,
            final(config).wf() == old(config).wf(),
    {
        let mut doc = match existing {
            Some(d) => d,
            None => crate::ini_doc::ini_empty(),
        };
        let active = self.autologin && self.login_user.is_some() && self.session_type.is_some();
        if active {
            match (&self.login_user, &self.session_type) {
                (Some(user), Some(proto)) => {
                    ini_set(
                        &mut doc,
                        self.metadata.autologin_section_name.as_str(),
                        self.metadata.autologin_user_key_name.as_str(),
                        user.as_str(),
                    );
                    let redirect = match proto {
                        Protocol::X11 => MOLYUU_REDIRECT_X11_SESSION,
                        Protocol::Wayland => MOLYUU_REDIRECT_WAYLAND_SESSION,
                    };
                    ini_set(
                        &mut doc,
                        self.metadata.autologin_section_name.as_str(),
                        self.metadata.autologin_session_key_name.as_str(),
                        redirect,
                    );
                },
                _ => {
                    // `active` already requires both to be present.
                    assert(false);
                },
            }
            if let Some(aux) = &self.metadata.autologin_related_other_configs {
                apply_aux_configs(&mut doc, aux, true);
            } else {
                proof {
                    assert(spec_apply_aux(ini_doc(doc), Seq::empty(), true) == ini_doc(doc));
                }
            }
        } else {
            ini_delete(
                &mut doc,
                self.metadata.autologin_section_name.as_str(),
                self.metadata.autologin_session_key_name.as_str(),
            );
            if let Some(aux) = &self.metadata.autologin_related_other_configs {
                apply_aux_configs(&mut doc, aux, false);
            } else {
                proof {
                    assert(spec_apply_aux(ini_doc(doc), Seq::empty(), false) == ini_doc(doc));
                }
            }
        }
        match self.update_global_config(config) {
            Ok(()) => (),
            Err(_) => (),
        }
        (doc, self.metadata.config_path.clone())
    }

    /// Mirror this manager's autologin state into the login namespace of
    /// the persisted document.
    pub fn update_global_config(&self, config: &mut Configuration) -> (r: Result<(), ControlError>)
        ensures
            r is Ok,
            final(config)@.login == spec_mirrored_login(self@, old(config)@.login),
            final(config)@.session == old(config)@.session,
            final(config).wf() == old(config).wf(),
    {
        config.login.autologin_enable = Some(self.autologin);
        match &self.login_user {
            Some(u) => {
                config.login.autologin_user = Some(u.clone());
            },
            None => (),
        }
        Ok(())
    }

    /// Record this manager as the configured one in the login namespace.
    pub fn set_as_default_manager(&self, config: &mut Configuration) -> (r: Result<
        (),
        ControlError,
    >)
        ensures
            r is Ok,
            final(config)@.login == (LoginTableModel {
                manager: Some(self.metadata@.systemd_unit),
                ..old(config)@.login
            }),
            final(config)@.session == old(config)@.session,
            final(config).wf() == old(config).wf(),
    {
        config.login.manager = Some(self.metadata.systemd_unit.clone());
        Ok(())
    }

    /// Replace this manager's metadata, keeping its autologin state.
    pub fn update_metadata(&mut self, metadata: ManagerMetadata) -> (r: Result<(), ControlError>)
        ensures
            r is Ok,
            final(self)@ == (ManagerModel { metadata: metadata@, ..old(self)@ }),
    {
        self.metadata = metadata;
        Ok(())
    }

    /// Switch autologin on (with a user) or off (without one). Any other
    /// combination is invalid, and switching on requires a resolvable
    /// default session. On success the external document is rewritten.
    pub fn set_auto_login(
        &mut self,
        enabled: bool,
        user: Option<&str>,
        existing: Option<ini::Ini>,
        config: &mut Configuration,
        system: &SystemSessions,
    ) -> (r: Result<(ini::Ini, String), ControlError>)
        requires
            old(config).wf(),
        ensures
            final(config).wf() == old(config).wf(),
            (enabled == (user is None)) ==> r == Err::<(ini::Ini, String), ControlError>(
                ControlError::Login(LoginManagerInstanceError::InvalidParameters),
            ) && final(config)@ == old(config)@ && *final(self) == *old(self),
            (enabled && user is Some) ==> (match spec_from_config(
                old(config)@.session,
                *system,
                None,
            ) {
                Err(se) => r == Err::<(ini::Ini, String), ControlError>(ControlError::Session(se))
                    && final(config)@ == old(config)@ && *final(self) == *old(self),
                Ok(_) => (match r {
                    Ok(dp) => final(self)@ == (ManagerModel {
                        autologin: true,
                        login_user: crate::session::spec_opt_str_view(user),
                        ..old(self)@
                    }) && ini_doc(dp.0) == spec_saved_doc(final(self)@, spec_base_doc(existing))
                        && dp.1@ == old(self).metadata@.config_path && final(config)@.login
                        == spec_mirrored_login(final(self)@, old(config)@.login) && final(config)@.session == old(config)@.session,
                    Err(_) => false,
                }),
            }),
            (!enabled && user is None) ==> (match r {
                Ok(dp) => final(self)@ == (ManagerModel {
                    autologin: false,
                    login_user: None,
                    ..old(self)@
                }) && ini_doc(dp.0) == spec_saved_doc(final(self)@, spec_base_doc(existing))
                    && dp.1@ == old(self).metadata@.config_path && final(config)@.login
                    == spec_mirrored_login(final(self)@, old(config)@.login) && final(config)@.session == old(config)@.session,
                Err(_) => false,
            }),
    {
        match (enabled, &user) {
            (true, Some(u)) => {
                match Session::get_default_session(config, system) {
                    Ok(_) => (),
                    Err(e) => {
                        return Err(ControlError::Session(e));
                    },
                }
                self.login_user = Some((*u).to_owned());
                self.autologin = true;
            },
            (false, None) => {
                self.login_user = None;
                self.autologin = false;
            },
            _ => {
                return Err(ControlError::Login(LoginManagerInstanceError::InvalidParameters));
            },
        }
        let (doc, path) = self.save_config(existing, config);
        Ok((doc, path))
    }

    /// Save the external document and name the unit the service-control
    /// collaborator must reset and restart, in that order: a previously
    /// failed unit refuses a plain restart.
    pub fn login_now(&self, existing: Option<ini::Ini>, config: &mut Configuration) -> (r: (
        ini::Ini,
        String,
        String,
    ))
        ensures
            ini_doc(r.0) == spec_saved_doc(self@, spec_base_doc(existing)),
            r.1@ == self.metadata@.config_path,
            r.2@ == self.metadata@.systemd_unit,
            final(config)@.login == spec_mirrored_login(self@, old(config)@.login),
            final(config)@.session == old(config)@.session,
            final(config).wf() == old(config).wf(),
    {
        let (doc, path) = self.save_config(existing, config);
        (doc, path, self.metadata.systemd_unit.clone())
    }
}

/// The manager kind a selection name denotes, if it is supported.
pub open spec fn spec_manager_kind_of(n: Seq<char>) -> Option<SupportedManager> {
    if n == "lightdm"@ {
        Some(SupportedManager::LightDM)
    } else if n == "sddm"@ {
        Some(SupportedManager::SDDM)
    } else {
        None
    }
}

/// The configured manager kind: the login namespace must name a supported
/// manager.
pub open spec fn spec_current_manager_kind(l: LoginTableModel) -> Result<
    SupportedManager,
    LoginManagerInstanceError,
> {
    match l.manager {
        Some(n) => match spec_manager_kind_of(n) {
            Some(k) => Ok(k),
            None => Err(LoginManagerInstanceError::UnknownCurrentManager),
        },
        None => Err(LoginManagerInstanceError::UnknownCurrentManager),
    }
}

/// The manager that a kind, an external document and the current session
/// selection together determine.
pub open spec fn spec_built_manager(
    kind: SupportedManager,
    ext: Option<IniDocView>,
    t: SessionTableModel,
    sys: SystemSessions,
) -> Result<ManagerModel, SessionInstanceError> {
    match spec_current_session_type(t, sys) {
        Ok(st) => {
            let meta = spec_metadata_for(kind);
            let al = spec_autologin_of_doc(ext, meta);
            Ok(
                ManagerModel {
                    autologin: al.0,
                    session_type: st,
                    login_user: al.1,
                    metadata: meta,
                },
            )
        },
        Err(e) => Err(e),
    }
}

/// The kind stored in the login namespace.
pub fn current_manager_kind(config: &Configuration) -> (r: Result<
    SupportedManager,
    LoginManagerInstanceError,
>)
    ensures
        r == spec_current_manager_kind(config@.login),
{
    match &config.login.manager {
        Some(m) => {
            if str_eq(m.as_str(), "lightdm") {
                Ok(SupportedManager::LightDM)
            } else if str_eq(m.as_str(), "sddm") {
                Ok(SupportedManager::SDDM)
            } else {
                Err(LoginManagerInstanceError::UnknownCurrentManager)
            }
        },
        None => Err(LoginManagerInstanceError::UnknownCurrentManager),
    }
}

/// The path of the configured manager's external configuration file, so
/// the binary knows which file to load before constructing the manager.
pub fn current_manager_config_path(config: &Configuration) -> (r: Option<String>)
    ensures
        match spec_current_manager_kind(config@.login) {
            Ok(k) => r matches Some(p) && p@ == spec_metadata_for(k).config_path,
            Err(_) => r is None,
        },
{
    match current_manager_kind(config) {
        Ok(k) => Some(ManagerMetadata::build_for_supported_manager(k).config_path),
        Err(_) => None,
    }
}

/// Construct the manager the login namespace currently names, from its
/// external configuration file's content.
pub fn get_current_manager(
    config: &Configuration,
    system: &SystemSessions,
    external: Option<&ini::Ini>,
) -> (r: Result<Manager, ControlError>)
    requires
        config.wf(),
    ensures
        match spec_current_manager_kind(config@.login) {
            Err(le) => r == Err::<Manager, ControlError>(ControlError::Login(le)),
            Ok(kind) => match r {
                Ok(m) => spec_built_manager(kind, spec_opt_doc(external), config@.session, *system)
                    == Ok::<ManagerModel, SessionInstanceError>(m@),
                Err(ControlError::Session(se)) => spec_built_manager(
                    kind,
                    spec_opt_doc(external),
                    config@.session,
                    *system,
                ) == Err::<ManagerModel, SessionInstanceError>(se),
                Err(ControlError::Login(_)) => false,
            },
        },
{
    let kind = match current_manager_kind(config) {
        Ok(k) => k,
        Err(e) => {
            return Err(ControlError::Login(e));
        },
    };
    let metadata = ManagerMetadata::build_for_supported_manager(kind);
    match Manager::new(metadata, external, config, system) {
        Ok(m) => Ok(m),
        Err(e) => Err(ControlError::Session(e)),
    }
}

/// The manager a switch to `kind` ends up with: with a manager already
/// configured, the current one is read (under its own section and key
/// names) and re-targeted at the new kind's metadata; with none, the new
/// kind's own file is read directly.
pub open spec fn spec_switched_manager(
    l: LoginTableModel,
    kind: SupportedManager,
    cur_ext: Option<IniDocView>,
    tgt_ext: Option<IniDocView>,
    t: SessionTableModel,
    sys: SystemSessions,
) -> Result<ManagerModel, ControlError> {
    match l.manager {
        Some(_) => match spec_current_manager_kind(l) {
            Ok(ck) => match spec_built_manager(ck, cur_ext, t, sys) {
                Ok(m) => Ok(ManagerModel { metadata: spec_metadata_for(kind), ..m }),
                Err(se) => Err(ControlError::Session(se)),
            },
            Err(le) => Err(ControlError::Login(le)),
        },
        None => match spec_built_manager(kind, tgt_ext, t, sys) {
            Ok(m) => Ok(m),
            Err(se) => Err(ControlError::Session(se)),
        },
    }
}

/// The image of an optionally loaded external document, owned form.
pub open spec fn spec_opt_doc_owned(o: Option<ini::Ini>) -> Option<IniDocView> {
    match o {
        Some(i) => Some(ini_doc(i)),
        None => None,
    }
}

/// Switch the login manager: refused when the named manager is already the
/// configured one or is not supported; otherwise the current autologin
/// state is re-applied in the new manager's configuration format, the new
/// kind is recorded, and the caller writes the returned document at the
/// returned path.
pub fn set_manager(
    new_manager: &str,
    config: &mut Configuration,
    system: &SystemSessions,
    current_external: Option<&ini::Ini>,
    target_external: Option<ini::Ini>,
) -> (r: Result<(ini::Ini, String), ControlError>)
    requires
        old(config).wf(),
    ensures
        final(config).wf() == old(config).wf(),
        old(config)@.login.manager == Some(new_manager@) ==> r == Err::<
            (ini::Ini, String),
            ControlError,
        >(ControlError::Login(LoginManagerInstanceError::ManagerAlreadyDefault)) && final(config)@
            == old(config)@,
        old(config)@.login.manager != Some(new_manager@) && spec_manager_kind_of(new_manager@)
            is None ==> r == Err::<(ini::Ini, String), ControlError>(
            ControlError::Login(LoginManagerInstanceError::UnsupportedManager),
        ) && final(config)@ == old(config)@,
        (match spec_manager_kind_of(new_manager@) {
            Some(kind) => old(config)@.login.manager != Some(new_manager@) ==> (match
                spec_switched_manager(
                old(config)@.login,
                kind,
                spec_opt_doc(current_external),
                spec_opt_doc_owned(target_external),
                old(config)@.session,
                *system,
            ) {
                Ok(mm) => (match r {
                    Ok(dp) => ini_doc(dp.0) == spec_saved_doc(mm, spec_base_doc(target_external))
                        && dp.1@ == mm.metadata.config_path && final(config)@.session == old(config)@.session && final(config)@.login == (LoginTableModel {
                        manager: Some(mm.metadata.systemd_unit),
                        ..spec_mirrored_login(mm, old(config)@.login)
                    }),
                    Err(_) => false,
                }),
                Err(e) => r == Err::<(ini::Ini, String), ControlError>(e) && final(config)@ == old(config)@,
            }),
            None => true,
        }),
{
    let has_current = config.login.manager.is_some();
    if opt_str_is(&config.login.manager, new_manager) {
        return Err(ControlError::Login(LoginManagerInstanceError::ManagerAlreadyDefault));
    }
    let kind = if str_eq(new_manager, "lightdm") {
        SupportedManager::LightDM
    } else if str_eq(new_manager, "sddm") {
        SupportedManager::SDDM
    } else {
        return Err(ControlError::Login(LoginManagerInstanceError::UnsupportedManager));
    };
    let mut manager = if has_current {
        match get_current_manager(config, system, current_external) {
            Ok(m) => m,
            Err(e) => {
                return Err(e);
            },
        }
    } else {
        let metadata = ManagerMetadata::build_for_supported_manager(kind);
        let ext_ref: Option<&ini::Ini> = match &target_external {
            Some(d) => Some(d),
            None => None,
        };
        match Manager::new(metadata, ext_ref, config, system) {
            Ok(m) => m,
            Err(e) => {
                return Err(ControlError::Session(e));
            },
        }
    };
    if has_current {
        let metadata = ManagerMetadata::build_for_supported_manager(kind);
        match manager.update_metadata(metadata) {
            Ok(()) => (),
            Err(_) => (),
        }
    }
    let (doc, path) = manager.save_config(target_external, config);
    match manager.set_as_default_manager(config) {
        Ok(()) => (),
        Err(_) => (),
    }
    Ok((doc, path))
}

/// The persisted manager name is exactly the name the manager was selected
/// by: each supported kind's unit name equals its selection identifier.
/// Together with [`set_manager`]'s contract this makes an immediate second
/// selection of the same kind fail as already default: the first call
/// stores the unit name, and the second call's name compares equal to it.
pub proof fn lemma_manager_unit_is_selection_name(name: Seq<char>, kind: SupportedManager)
    requires
        spec_manager_kind_of(name) == Some(kind),
    ensures
        spec_metadata_for(kind).systemd_unit == name,
{
}

} // verus!
