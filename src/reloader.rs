//! The reload coordinator: re-derives each service's state from its stored
//! configuration, independently. A service that fails keeps its state; the
//! others keep their new state; every failure is reported.

use vstd::prelude::*;
use crate::config_store::ConfigError;
use crate::jwt::{DEFAULT_EXPIRE, JwtService, JwtServiceSettings, JwtServiceState};
use crate::site_settings::{SiteSettings, SiteSettingsService};
use crate::theme::{
    load_error, prepare_theme, theme_compiles, theme_found, theme_paths_clean, LoadedTheme, StateLoadError,
    ThemeFiles, ThemeServiceSettings, ThemeServiceState,
};
use crate::theme_definition::ThemeDefinition;

verus! {

/// The services that a reload re-derives.
#[derive(PartialEq, Eq, Structural, Debug, Clone, Copy)]
pub enum ServiceKind {
    Jwt,
    Theme,
    SiteSettings,
}

/// Why one service was not reloaded.
pub enum ReloadCause {
    /// Its entry could not be read or decoded.
    Config(ConfigError),
    /// It has no entry and no default.
    MissingConfig,
    /// Its new state could not be built.
    Theme(StateLoadError),
}

/// One service that was not reloaded, and why.
pub struct ReloadFailure {
    pub service: ServiceKind,
    pub cause: ReloadCause,
}

/// The services that were not reloaded, in the order token authority, theme
/// engine, site settings.
pub struct AggregatedReloadError {
    pub failures: Vec<ReloadFailure>,
}

/// What a reload reads: each service's decoded entry (`Ok(None)` when there is
/// none), and what was found on disk for the theme the theme entry names.
pub struct ReloadInputs {
    pub jwt: Result<Option<JwtServiceSettings>, ConfigError>,
    pub theme: Result<Option<ThemeServiceSettings>, ConfigError>,
    pub theme_files: ThemeFiles,
    pub site: Result<Option<SiteSettings>, ConfigError>,
}

/// The state built from token settings.
pub open spec fn jwt_state_of(s: JwtServiceSettings) -> JwtServiceState {
    JwtServiceState { secret: s.secret, audience: s.audience, default_expire: s.expire }
}

/// The token authority after a reload from `entry`: the stored settings, the
/// defaults when nothing is stored, unchanged when the entry is unreadable.
pub open spec fn jwt_reloaded(
    before: JwtService,
    after: JwtService,
    entry: Result<Option<JwtServiceSettings>, ConfigError>,
) -> bool {
    match entry {
        Ok(Some(s)) => after.state == jwt_state_of(s),
        Ok(None) => after.state.secret@ == Seq::<char>::empty() && after.state.audience@
            == Seq::<char>::empty() && after.state.default_expire == DEFAULT_EXPIRE,
        Err(_) => after == before,
    }
}

/// The site settings after a reload from `entry`: the stored settings, empty
/// ones when nothing is stored, unchanged when the entry is unreadable.
pub open spec fn site_reloaded(
    before: SiteSettingsService,
    after: SiteSettingsService,
    entry: Result<Option<SiteSettings>, ConfigError>,
) -> bool {
    match entry {
        Ok(Some(s)) => after.settings == s,
        Ok(None) => after.settings.site_name@ == Seq::<char>::empty() && after.settings.base_url@
            == Seq::<char>::empty(),
        Err(_) => after == before,
    }
}

/// The theme named by `entry` loads from `files`.
pub open spec fn theme_reload_ok(
    entry: Result<Option<ThemeServiceSettings>, ConfigError>,
    files: ThemeFiles,
) -> bool {
    entry matches Ok(Some(s)) && theme_found(s.current@, files) && files.static_exists
        && theme_paths_clean(files) && theme_compiles(files)
}

/// The theme engine after a reload from `entry` and `files`: the theme the
/// entry names is active when it loads, and the state is unchanged otherwise.
pub open spec fn theme_reloaded(
    before: ThemeServiceState,
    after: ThemeServiceState,
    entry: Result<Option<ThemeServiceSettings>, ConfigError>,
    files: ThemeFiles,
) -> bool {
    &&& theme_reload_ok(entry, files) ==> (after.current matches Some(t) && t.name@
        == entry->Ok_0->0.current@ && files.manifest == Some(
        Ok::<ThemeDefinition, String>(t.definition),
    ))
    &&& !theme_reload_ok(entry, files) ==> after == before
}

/// The services whose reload fails, in reporting order.
pub open spec fn failed_services(inputs: ReloadInputs) -> Seq<ServiceKind> {
    (if inputs.jwt is Err { seq![ServiceKind::Jwt] } else { seq![] })
        + (if !theme_reload_ok(inputs.theme, inputs.theme_files) { seq![ServiceKind::Theme] } else { seq![] })
        + (if inputs.site is Err { seq![ServiceKind::SiteSettings] } else { seq![] })
}

/// `cause` is why the theme engine was not reloaded from `entry` and
/// `files`: the entry's own error, no entry, or the load error.
pub open spec fn theme_failure(
    entry: Result<Option<ThemeServiceSettings>, ConfigError>,
    files: ThemeFiles,
    cause: ReloadCause,
) -> bool {
    match entry {
        Err(e) => cause == ReloadCause::Config(e),
        Ok(None) => cause == ReloadCause::MissingConfig,
        Ok(Some(s)) => cause matches ReloadCause::Theme(le) && load_error(s, files, le),
    }
}

/// `f` names a service that failed on `inputs`, with the cause it failed for.
pub open spec fn failure_fits(inputs: ReloadInputs, f: ReloadFailure) -> bool {
    match f.service {
        ServiceKind::Jwt => inputs.jwt matches Err(e) && f.cause == ReloadCause::Config(e),
        ServiceKind::Theme => !theme_reload_ok(inputs.theme, inputs.theme_files) && theme_failure(
            inputs.theme,
            inputs.theme_files,
            f.cause,
        ),
        ServiceKind::SiteSettings => inputs.site matches Err(e) && f.cause == ReloadCause::Config(e),
    }
}

/// The failures of a reload from `inputs`: one per failed service, in
/// reporting order, each with its cause.
pub open spec fn reload_failures(inputs: ReloadInputs, failures: Seq<ReloadFailure>) -> bool {
    &&& failure_services(failures) == failed_services(inputs)
    &&& forall|i: int| 0 <= i < failures.len() ==> failure_fits(inputs, #[trigger] failures[i])
}

/// The services named by a list of failures.
pub open spec fn failure_services(failures: Seq<ReloadFailure>) -> Seq<ServiceKind> {
    failures.map_values(|f: ReloadFailure| f.service)
}

/// Random text for a secret that lives only as long as the process: two
/// random 64-bit numbers in decimal, one after the other.
pub fn ephemeral_secret() -> (r: String)
    ensures
        exists|a: u64, b: u64| r@ == #[trigger] crate::jwt::decimal(a as nat) + #[trigger] crate::jwt::decimal(b as nat),
{
    let mut s = crate::jwt::random_decimal();
    let t = crate::jwt::random_decimal();
    s.append(t.as_str());
    s
}

/// The token authority's state at startup: the stored settings, the defaults
/// when nothing is stored, and the defaults with `fallback_secret` when the
/// entry cannot be read, so that the authority stays usable.
pub fn initial_jwt_state(
    entry: Result<Option<JwtServiceSettings>, ConfigError>,
    fallback_secret: String,
) -> (r: JwtServiceState)
    ensures
        entry matches Ok(Some(s)) ==> r == jwt_state_of(s),
        entry matches Ok(None) ==> (r.secret@ == Seq::<char>::empty() && r.audience@ == Seq::<
            char,
        >::empty() && r.default_expire == DEFAULT_EXPIRE),
        entry is Err ==> (r.secret == fallback_secret && r.audience@ == Seq::<char>::empty()
            && r.default_expire == DEFAULT_EXPIRE),
{
    match entry {
        Ok(Some(s)) => JwtServiceState::from(s),
        Ok(None) => JwtServiceState::from(JwtServiceSettings::default()),
        Err(_) => {
            let d = JwtServiceSettings::default();
            JwtServiceState::new(fallback_secret, d.audience, d.expire)
        },
    }
}

/// Re-derives the token authority's state from its entry.
pub fn reload_jwt_service(
    jwt: &mut JwtService,
    entry: Result<Option<JwtServiceSettings>, ConfigError>,
) -> (r: Result<(), ReloadCause>)
    ensures
        r is Ok <==> entry is Ok,
        entry matches Err(e) ==> r == Err::<(), ReloadCause>(ReloadCause::Config(e)),
        jwt_reloaded(*old(jwt), *final(jwt), entry),
{
    match entry {
        Ok(Some(s)) => {
            jwt.set_state(JwtServiceState::from(s));
            Ok(())
        },
        Ok(None) => {
            jwt.set_state(JwtServiceState::from(JwtServiceSettings::default()));
            Ok(())
        },
        Err(e) => Err(ReloadCause::Config(e)),
    }
}

/// Re-derives the theme engine's state: loads the theme that the entry names
/// from `files`.
pub fn reload_theme_service(
    theme: &mut ThemeServiceState,
    entry: Result<Option<ThemeServiceSettings>, ConfigError>,
    files: ThemeFiles,
) -> (r: Result<(), ReloadCause>)
    ensures
        r is Ok <==> theme_reload_ok(entry, files),
        theme_reloaded(*old(theme), *final(theme), entry, files),
        r matches Err(c) ==> theme_failure(entry, files, c),
{
    match prepare_theme_reload(entry, files) {
        Ok(t) => {
            theme.install(t);
            Ok(())
        },
        Err(e) => Err(e),
    }
}

/// Builds the theme that the entry names from `files`, without touching any
/// service.
pub fn prepare_theme_reload(
    entry: Result<Option<ThemeServiceSettings>, ConfigError>,
    files: ThemeFiles,
) -> (r: Result<LoadedTheme, ReloadCause>)
    ensures
        r is Ok <==> theme_reload_ok(entry, files),
        r matches Ok(t) ==> t.name@ == entry->Ok_0->0.current@ && files.manifest == Some(
            Ok::<ThemeDefinition, String>(t.definition),
        ),
        r matches Err(c) ==> theme_failure(entry, files, c),
{
    match entry {
        Ok(Some(s)) => match prepare_theme(&s, files) {
            Ok(t) => Ok(t),
            Err(e) => Err(ReloadCause::Theme(e)),
        },
        Ok(None) => Err(ReloadCause::MissingConfig),
        Err(e) => Err(ReloadCause::Config(e)),
    }
}

/// Re-derives the site settings from their entry.
pub fn reload_site_settings(
    site: &mut SiteSettingsService,
    entry: Result<Option<SiteSettings>, ConfigError>,
) -> (r: Result<(), ReloadCause>)
    ensures
        r is Ok <==> entry is Ok,
        entry matches Err(e) ==> r == Err::<(), ReloadCause>(ReloadCause::Config(e)),
        site_reloaded(*old(site), *final(site), entry),
{
    match entry {
        Ok(Some(s)) => {
            site.update(s);
            Ok(())
        },
        Ok(None) => {
            site.update(SiteSettings::default());
            Ok(())
        },
        Err(e) => Err(ReloadCause::Config(e)),
    }
}

/// The new state of each service, built from the reload inputs, or why it
/// could not be built.
pub struct PreparedReload {
    pub jwt: Result<JwtServiceState, ReloadCause>,
    pub theme: Result<LoadedTheme, ReloadCause>,
    pub site: Result<SiteSettings, ReloadCause>,
}

/// The services whose new state could not be built, in reporting order.
pub open spec fn unprepared_services(p: PreparedReload) -> Seq<ServiceKind> {
    (if p.jwt is Err { seq![ServiceKind::Jwt] } else { seq![] })
        + (if p.theme is Err { seq![ServiceKind::Theme] } else { seq![] })
        + (if p.site is Err { seq![ServiceKind::SiteSettings] } else { seq![] })
}

/// The failures for the services whose new state could not be built, each
/// with its cause, in reporting order.
pub open spec fn prepared_failures(p: PreparedReload) -> Seq<ReloadFailure> {
    (match p.jwt {
        Err(c) => seq![ReloadFailure { service: ServiceKind::Jwt, cause: c }],
        Ok(_) => seq![],
    }) + (match p.theme {
        Err(c) => seq![ReloadFailure { service: ServiceKind::Theme, cause: c }],
        Ok(_) => seq![],
    }) + (match p.site {
        Err(c) => seq![ReloadFailure { service: ServiceKind::SiteSettings, cause: c }],
        Ok(_) => seq![],
    })
}

/// Builds every service's new state from `inputs`, each on its own. Nothing
/// live is touched, so this may take its time while the services go on
/// serving their current state.
pub fn prepare_reload(inputs: ReloadInputs) -> (r: PreparedReload)
    ensures
        inputs.jwt matches Ok(Some(s)) ==> r.jwt == Ok::<JwtServiceState, ReloadCause>(
            jwt_state_of(s),
        ),
        inputs.jwt matches Ok(None) ==> (r.jwt matches Ok(st) && st.secret@ == Seq::<
            char,
        >::empty() && st.audience@ == Seq::<char>::empty() && st.default_expire
            == DEFAULT_EXPIRE),
        inputs.jwt matches Err(e) ==> r.jwt == Err::<JwtServiceState, ReloadCause>(
            ReloadCause::Config(e),
        ),
        r.theme is Ok <==> theme_reload_ok(inputs.theme, inputs.theme_files),
        r.theme matches Ok(t) ==> t.name@ == inputs.theme->Ok_0->0.current@
            && inputs.theme_files.manifest == Some(Ok::<ThemeDefinition, String>(t.definition)),
        inputs.site matches Ok(Some(s)) ==> r.site == Ok::<SiteSettings, ReloadCause>(s),
        inputs.site matches Ok(None) ==> (r.site matches Ok(st) && st.site_name@ == Seq::<
            char,
        >::empty() && st.base_url@ == Seq::<char>::empty()),
        inputs.site matches Err(e) ==> r.site == Err::<SiteSettings, ReloadCause>(
            ReloadCause::Config(e),
        ),
        r.theme matches Err(c) ==> theme_failure(inputs.theme, inputs.theme_files, c),
{
    let jwt = match inputs.jwt {
        Ok(Some(s)) => Ok(JwtServiceState::from(s)),
        Ok(None) => Ok(JwtServiceState::from(JwtServiceSettings::default())),
        Err(e) => Err(ReloadCause::Config(e)),
    };
    let theme = prepare_theme_reload(inputs.theme, inputs.theme_files);
    let site = match inputs.site {
        Ok(Some(s)) => Ok(s),
        Ok(None) => Ok(SiteSettings::default()),
        Err(e) => Err(ReloadCause::Config(e)),
    };
    PreparedReload { jwt, theme, site }
}

/// Installs every new state that was built, replacing each service's state as
/// a whole; a service whose state could not be built keeps its current one.
/// Fails exactly when some service's state could not be built, naming each
/// such service once, in the order token authority, theme engine, site
/// settings.
pub fn apply_reload(
    prepared: PreparedReload,
    jwt: &mut JwtService,
    theme: &mut ThemeServiceState,
    site: &mut SiteSettingsService,
) -> (r: Result<(), AggregatedReloadError>)
    ensures
        prepared.jwt matches Ok(st) ==> final(jwt).state == st,
        prepared.jwt is Err ==> *final(jwt) == *old(jwt),
        prepared.theme matches Ok(t) ==> final(theme).current == Some(t),
        prepared.theme is Err ==> *final(theme) == *old(theme),
        prepared.site matches Ok(s) ==> final(site).settings == s,
        prepared.site is Err ==> *final(site) == *old(site),
        r is Ok <==> unprepared_services(prepared).len() == 0,
        r matches Err(e) ==> e.failures@ == prepared_failures(prepared),
{
    let ghost built = prepared;
    let mut failures: Vec<ReloadFailure> = Vec::new();
    match prepared.jwt {
        Ok(st) => jwt.set_state(st),
        Err(cause) => failures.push(ReloadFailure { service: ServiceKind::Jwt, cause }),
    }
    match prepared.theme {
        Ok(t) => theme.install(t),
        Err(cause) => failures.push(ReloadFailure { service: ServiceKind::Theme, cause }),
    }
    match prepared.site {
        Ok(s) => site.update(s),
        Err(cause) => failures.push(ReloadFailure { service: ServiceKind::SiteSettings, cause }),
    }
    assert(failures@ =~= prepared_failures(built));
    if failures.len() == 0 {
        Ok(())
    } else {
        Err(AggregatedReloadError { failures })
    }
}

/// Reloads every service from `inputs`, each on its own: a failure leaves
/// that service as it was and does not hold back or undo the others. Fails
/// exactly when some service failed, naming each failed service once, in the
/// order token authority, theme engine, site settings.
pub fn reload(
    jwt: &mut JwtService,
    theme: &mut ThemeServiceState,
    site: &mut SiteSettingsService,
    inputs: ReloadInputs,
) -> (r: Result<(), AggregatedReloadError>)
    ensures
        jwt_reloaded(*old(jwt), *final(jwt), inputs.jwt),
        theme_reloaded(*old(theme), *final(theme), inputs.theme, inputs.theme_files),
        site_reloaded(*old(site), *final(site), inputs.site),
        r is Ok <==> failed_services(inputs).len() == 0,
        r matches Err(e) ==> reload_failures(inputs, e.failures@),
{
    let ghost inputs0 = inputs;
    let prepared = prepare_reload(inputs);
    let ghost built = prepared;
    assert(unprepared_services(prepared) =~= failed_services(inputs0));
    let r = apply_reload(prepared, jwt, theme, site);
    proof {
        if r is Err {
            let fs = prepared_failures(built);
            assert(failure_services(fs) =~= failed_services(inputs0));
            assert forall|i: int| 0 <= i < fs.len() implies failure_fits(inputs0, #[trigger] fs[i]) by {
                let nj: int = if built.jwt is Err { 1 } else { 0 };
                let nt: int = if built.theme is Err { 1 } else { 0 };
                if i < nj {
                    assert(fs[i].service == ServiceKind::Jwt);
                } else if i < nj + nt {
                    assert(fs[i].service == ServiceKind::Theme);
                } else {
                    assert(fs[i].service == ServiceKind::SiteSettings);
                }
            }
        }
    }
    r
}

/// A theme entry that cannot be read or decoded fails the theme engine alone:
/// the theme engine keeps its state, the token authority and site settings
/// take their readable entries, and the theme engine is the one failure
/// reported, with the entry's error as its cause.
pub proof fn lemma_bad_theme_entry_fails_alone(
    jwt_before: JwtService,
    jwt_after: JwtService,
    theme_before: ThemeServiceState,
    theme_after: ThemeServiceState,
    site_before: SiteSettingsService,
    site_after: SiteSettingsService,
    inputs: ReloadInputs,
    failures: Seq<ReloadFailure>,
)
    requires
        jwt_reloaded(jwt_before, jwt_after, inputs.jwt),
        theme_reloaded(theme_before, theme_after, inputs.theme, inputs.theme_files),
        site_reloaded(site_before, site_after, inputs.site),
        reload_failures(inputs, failures),
        inputs.theme is Err,
        inputs.jwt matches Ok(Some(_)),
        inputs.site matches Ok(Some(_)),
    ensures
        theme_after == theme_before,
        jwt_after.state == jwt_state_of(inputs.jwt->Ok_0->0),
        site_after.settings == inputs.site->Ok_0->0,
        failures.len() == 1,
        failures[0].service == ServiceKind::Theme,
        failures[0].cause == ReloadCause::Config(inputs.theme->Err_0),
{
    assert(failed_services(inputs) =~= seq![ServiceKind::Theme]);
    assert(failure_services(failures).len() == 1);
    assert(failure_services(failures)[0] == failures[0].service);
    assert(failure_fits(inputs, failures[0]));
}

/// With no entries stored, a reload gives the token authority its default
/// settings, leaves the theme engine as it was (with no theme, none), and
/// reports the theme engine as the one failure, for want of an entry.
pub proof fn lemma_empty_store_reload(
    jwt_before: JwtService,
    jwt_after: JwtService,
    theme_before: ThemeServiceState,
    theme_after: ThemeServiceState,
    site_before: SiteSettingsService,
    site_after: SiteSettingsService,
    inputs: ReloadInputs,
    failures: Seq<ReloadFailure>,
)
    requires
        jwt_reloaded(jwt_before, jwt_after, inputs.jwt),
        theme_reloaded(theme_before, theme_after, inputs.theme, inputs.theme_files),
        site_reloaded(site_before, site_after, inputs.site),
        reload_failures(inputs, failures),
        inputs.jwt matches Ok(None),
        inputs.theme matches Ok(None),
        inputs.site matches Ok(None),
    ensures
        jwt_after.state.default_expire == DEFAULT_EXPIRE,
        jwt_after.state.secret@ == Seq::<char>::empty(),
        theme_after == theme_before,
        theme_before.current is None ==> theme_after.current is None,
        failures.len() == 1,
        failures[0].service == ServiceKind::Theme,
        failures[0].cause == ReloadCause::MissingConfig,
{
    assert(failed_services(inputs) =~= seq![ServiceKind::Theme]);
    assert(failure_services(failures).len() == 1);
    assert(failure_services(failures)[0] == failures[0].service);
    assert(failure_fits(inputs, failures[0]));
}

} // verus!
