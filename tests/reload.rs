use bamboolog::config_store::{ConfigEntry, ConfigError, ConfigTable};
use bamboolog::jwt::{JwtService, JwtServiceSettings, JwtServiceState, User};
use bamboolog::reloader::{
    apply_reload, ephemeral_secret, initial_jwt_state, prepare_reload, reload, reload_jwt_service,
    reload_site_settings, reload_theme_service, ReloadCause, ReloadInputs, ServiceKind,
};
use bamboolog::site_settings::{SiteSettings, SiteSettingsService};
use bamboolog::theme::{
    StateLoadError, TemplateFile, ThemeFiles, ThemeRenderError, ThemeServiceSettings,
    ThemeServiceState,
};
use bamboolog::theme_definition::ThemeDefinition;

fn field<'a>(v: &'a serde_json::Value, k: &str) -> Result<&'a serde_json::Value, String> {
    v.get(k).ok_or_else(|| format!("missing field `{}`", k))
}

fn text(v: &serde_json::Value, k: &str) -> Result<String, String> {
    field(v, k)?.as_str().map(|s| s.to_string()).ok_or_else(|| format!("`{}` is not a string", k))
}

fn parse(s: &str) -> Result<serde_json::Value, String> {
    serde_json::from_str(s).map_err(|e| e.to_string())
}

fn jwt_settings(s: &str) -> Result<JwtServiceSettings, String> {
    let v = parse(s)?;
    let expire = field(&v, "expire")?.as_u64().ok_or("`expire` is not a number")?;
    Ok(JwtServiceSettings { secret: text(&v, "secret")?, audience: text(&v, "audience")?, expire })
}

fn theme_settings(s: &str) -> Result<ThemeServiceSettings, String> {
    Ok(ThemeServiceSettings { current: text(&parse(s)?, "current")? })
}

fn site_settings(s: &str) -> Result<SiteSettings, String> {
    let v = parse(s)?;
    Ok(SiteSettings { site_name: text(&v, "site_name")?, base_url: text(&v, "base_url")? })
}

fn absent_files() -> ThemeFiles {
    ThemeFiles { root_exists: false, manifest: None, layouts: None, static_exists: false }
}

fn good_files() -> ThemeFiles {
    ThemeFiles {
        root_exists: true,
        manifest: Some(Ok(ThemeDefinition::default())),
        layouts: Some(vec![TemplateFile { name: "home.html".to_string(), content: "v{{ n }}".to_string() }]),
        static_exists: true,
    }
}

fn inputs(table: &ConfigTable, theme_files: ThemeFiles) -> ReloadInputs {
    ReloadInputs {
        jwt: ConfigEntry::jwt().get(table, jwt_settings),
        theme: ConfigEntry::theme_service().get(table, theme_settings),
        theme_files,
        site: ConfigEntry::site().get(table, site_settings),
    }
}

fn services() -> (JwtService, ThemeServiceState, SiteSettingsService) {
    (
        JwtService::new(JwtServiceState::new("old".to_string(), "old".to_string(), 10)),
        ThemeServiceState::new(),
        SiteSettingsService::new(SiteSettings::default()),
    )
}

#[test]
fn empty_store_reload_falls_back_for_jwt_and_fails_theme() {
    let table = ConfigTable::new();
    let (mut jwt, mut theme, mut site) = services();
    let r = reload(&mut jwt, &mut theme, &mut site, inputs(&table, absent_files()));
    match r {
        Err(e) => {
            assert_eq!(e.failures.len(), 1);
            assert_eq!(e.failures[0].service, ServiceKind::Theme);
            assert!(matches!(e.failures[0].cause, ReloadCause::MissingConfig));
        }
        Ok(()) => panic!("theme reload should fail"),
    }
    assert_eq!(jwt.state.secret, "");
    assert_eq!(jwt.state.default_expire, 3600);
    let claims = jwt.issue(&User { id: 1, username: "u".to_string() });
    assert_eq!(claims.user_id, 1);
    assert!(jwt.verify_now(Some(claims)).is_ok());
    assert!(matches!(theme.render_target("home.html"), Err(ThemeRenderError::NoLoadedTheme)));
}

#[test]
fn malformed_theme_entry_keeps_theme_and_updates_others() {
    let mut table = ConfigTable::new();
    assert!(ConfigEntry::jwt()
        .set_string(&mut table, r#"{"secret":"s2","audience":"a2","expire":60}"#.to_string())
        .is_ok());
    assert!(ConfigEntry::site()
        .set_string(&mut table, r#"{"site_name":"Bamboo","base_url":"https://b.org"}"#.to_string())
        .is_ok());
    assert!(ConfigEntry::theme_service().set_string(&mut table, "{not json".to_string()).is_ok());

    let (mut jwt, mut theme, mut site) = services();
    assert!(theme.load_theme(&ThemeServiceSettings { current: "prior".to_string() }, good_files()).is_ok());

    let r = reload(&mut jwt, &mut theme, &mut site, inputs(&table, absent_files()));
    match r {
        Err(e) => {
            assert_eq!(e.failures.len(), 1);
            assert_eq!(e.failures[0].service, ServiceKind::Theme);
            assert!(matches!(e.failures[0].cause, ReloadCause::Config(ConfigError::DecodeError(_))));
        }
        Ok(()) => panic!("theme reload should fail"),
    }
    assert_eq!(jwt.state.secret, "s2");
    assert_eq!(jwt.state.audience, "a2");
    assert_eq!(jwt.state.default_expire, 60);
    assert_eq!(site.settings.site_name, "Bamboo");
    assert_eq!(site.settings.base_url, "https://b.org");
    assert_eq!(theme.current.as_ref().map(|t| t.name.as_str()), Some("prior"));
}

#[test]
fn all_entries_valid_reload_succeeds() {
    let mut table = ConfigTable::new();
    assert!(ConfigEntry::jwt()
        .set_string(&mut table, r#"{"secret":"s","audience":"a","expire":5}"#.to_string())
        .is_ok());
    assert!(ConfigEntry::theme_service().set_string(&mut table, r#"{"current":"fresh"}"#.to_string()).is_ok());
    let (mut jwt, mut theme, mut site) = services();
    assert!(reload(&mut jwt, &mut theme, &mut site, inputs(&table, good_files())).is_ok());
    assert_eq!(theme.current.as_ref().map(|t| t.name.as_str()), Some("fresh"));
    assert_eq!(site.settings.site_name, "");
    assert_eq!(jwt.state.default_expire, 5);
}

#[test]
fn every_failure_is_reported_in_order() {
    let mut table = ConfigTable::new();
    assert!(ConfigEntry::jwt().set_string(&mut table, "[]".to_string()).is_ok());
    assert!(ConfigEntry::site().set_string(&mut table, "{}".to_string()).is_ok());
    assert!(ConfigEntry::theme_service().set_string(&mut table, r#"{"current":"gone"}"#.to_string()).is_ok());
    let (mut jwt, mut theme, mut site) = services();
    match reload(&mut jwt, &mut theme, &mut site, inputs(&table, absent_files())) {
        Err(e) => {
            let kinds: Vec<ServiceKind> = e.failures.iter().map(|f| f.service).collect();
            assert_eq!(kinds, vec![ServiceKind::Jwt, ServiceKind::Theme, ServiceKind::SiteSettings]);
            assert!(matches!(e.failures[1].cause, ReloadCause::Theme(StateLoadError::ThemeNotFound(_))));
        }
        Ok(()) => panic!("reload should fail"),
    }
    assert_eq!(jwt.state.secret, "old");
}

#[test]
fn startup_state_falls_back_to_ephemeral_secret() {
    let secret = ephemeral_secret();
    assert!(secret.len() >= 2);
    let st = initial_jwt_state(Err(ConfigError::StoreError("down".to_string())), secret.clone());
    assert_eq!(st.secret, secret);
    assert_eq!(st.default_expire, 3600);
    let st = initial_jwt_state(Ok(None), secret);
    assert_eq!(st.secret, "");
}

#[test]
fn prepare_touches_nothing_and_apply_swaps() {
    let mut table = ConfigTable::new();
    assert!(ConfigEntry::jwt()
        .set_string(&mut table, r#"{"secret":"n","audience":"a","expire":9}"#.to_string())
        .is_ok());
    assert!(ConfigEntry::theme_service().set_string(&mut table, r#"{"current":"next"}"#.to_string()).is_ok());
    let (mut jwt, mut theme, mut site) = services();
    let prepared = prepare_reload(inputs(&table, good_files()));
    assert_eq!(jwt.state.secret, "old");
    assert!(theme.current.is_none());
    assert!(prepared.jwt.is_ok() && prepared.theme.is_ok() && prepared.site.is_ok());
    assert!(apply_reload(prepared, &mut jwt, &mut theme, &mut site).is_ok());
    assert_eq!(jwt.state.secret, "n");
    assert_eq!(theme.current.as_ref().map(|t| t.name.as_str()), Some("next"));
}

#[test]
fn per_service_reloads() {
    let (mut jwt, mut theme, mut site) = services();
    assert!(reload_jwt_service(&mut jwt, Err(ConfigError::StoreError("x".to_string()))).is_err());
    assert_eq!(jwt.state.secret, "old");
    assert!(reload_jwt_service(&mut jwt, Ok(None)).is_ok());
    assert_eq!(jwt.state.default_expire, 3600);

    let r = reload_theme_service(&mut theme, Ok(None), good_files());
    assert!(matches!(r, Err(ReloadCause::MissingConfig)));
    assert!(theme.current.is_none());
    let s = ThemeServiceSettings { current: "t".to_string() };
    assert!(reload_theme_service(&mut theme, Ok(Some(s)), good_files()).is_ok());
    assert!(theme.current.is_some());

    let new = SiteSettings { site_name: "n".to_string(), base_url: "u".to_string() };
    assert!(reload_site_settings(&mut site, Ok(Some(new))).is_ok());
    assert_eq!(site.settings.site_name, "n");
    assert!(reload_site_settings(&mut site, Err(ConfigError::DecodeError("d".to_string()))).is_err());
    assert_eq!(site.settings.base_url, "u");
}
