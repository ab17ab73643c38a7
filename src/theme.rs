//! The theme engine: builds a theme from its files all at once, installs it
//! only when it is complete, picks the template that renders a page, and
//! resolves static files inside its static directory.

use vstd::prelude::*;
use crate::paths::{
    clean_relative, is_clean_relative, is_single_segment, lemma_scan_out_stays_out, resolve_below,
    resolve_below_root, scan_path, single_segment,
};
use crate::theme_definition::{LayoutAlias, ThemeDefinition};

verus! {

#[verifier::external_type_specification]
#[verifier::external_body]
pub struct ExTera(tera::Tera);

#[verifier::external_type_specification]
#[verifier::external_body]
pub struct ExTeraError(tera::Error);

#[verifier::external_type_specification]
#[verifier::external_body]
pub struct ExContext(tera::Context);

/// Directory, relative to the asset root, that holds the themes.
pub const THEMES_DIR: &'static str = "themes/";

/// Directory of a theme's layouts, relative to the theme's directory.
pub const LAYOUTS_SUFFIX: &'static str = "/layouts";

/// Directory of a theme's static files, relative to the theme's directory.
pub const STATIC_SUFFIX: &'static str = "/static";

/// A theme's manifest file, relative to the theme's directory.
pub const MANIFEST_SUFFIX: &'static str = "/theme.toml";

/// Content type of a file whose type cannot be guessed.
pub const OCTET_STREAM: &'static str = "application/octet-stream";

/// The stored settings of the theme engine: the name of the active theme.
pub struct ThemeServiceSettings {
    pub current: String,
}

impl Default for ThemeServiceSettings {
    fn default() -> (r: ThemeServiceSettings)
        ensures
            r.current@ == Seq::<char>::empty(),
    {
        ThemeServiceSettings { current: String::new() }
    }
}

/// One layout template: its path relative to the layouts directory, and its
/// text.
pub struct TemplateFile {
    pub name: String,
    pub content: String,
}

/// The parts every theme directory must have.
#[derive(PartialEq, Eq, Structural, Debug, Clone, Copy)]
pub enum ThemePart {
    Manifest,
    Layouts,
    Static,
}

/// What was found on disk for a theme: whether its directory exists, its
/// manifest (`None` when absent, `Err` with the parser's message when it does
/// not parse), its layout templates (`None` when the directory is absent),
/// and whether its static directory exists.
pub struct ThemeFiles {
    pub root_exists: bool,
    pub manifest: Option<Result<ThemeDefinition, String>>,
    pub layouts: Option<Vec<TemplateFile>>,
    pub static_exists: bool,
}

/// Why a theme could not be loaded. Each names the theme.
pub enum StateLoadError {
    ThemeNotFound(String),
    /// The parts that are missing, all of them, in the order manifest,
    /// layouts, static.
    BrokenTheme(String, Vec<ThemePart>),
    /// The parser's message.
    ManifestParseError(String, String),
    /// A template name or an alias target would leave the layouts directory.
    PathTraversalRejected(String),
    TemplateError(String, tera::Error),
}

/// A fully built theme.
pub struct LoadedTheme {
    pub name: String,
    pub definition: ThemeDefinition,
    pub renderer: tera::Tera,
}

/// The theme engine's state: the active theme, if any.
pub struct ThemeServiceState {
    pub current: Option<LoadedTheme>,
}

/// Why a page could not be rendered.
pub enum ThemeRenderError {
    TemplateError(tera::Error),
    NoLoadedTheme,
}

/// Why a static file could not be served. A path that would leave the static
/// directory is reported as not found.
#[derive(PartialEq, Eq, Structural, Debug, Clone, Copy)]
pub enum StaticServingError {
    NotFound,
    NoLoadedTheme,
}

/// A static file to serve: the static directory and the file, both relative
/// to the asset root, and the file's content type.
pub struct StaticFile {
    pub root: String,
    pub path: String,
    pub content_type: String,
}

/// Whether the templates (name and text) compile into one template set.
pub uninterp spec fn templates_compile(files: Seq<(Seq<char>, Seq<char>)>) -> bool;

/// The content type guessed from a path's extension, if any.
pub uninterp spec fn guessed_mime(path: Seq<char>) -> Option<Seq<char>>;

/// The names and texts of template files.
pub open spec fn template_pairs(files: Seq<TemplateFile>) -> Seq<(Seq<char>, Seq<char>)> {
    files.map_values(|f: TemplateFile| (f.name@, f.content@))
}

/// Relies on `tera::Tera::default` and `Tera::add_raw_templates`: parses the
/// templates into a fresh template set and links their inheritance. Whether
/// that succeeds depends on the templates alone.
#[verifier::external_body]
fn compile_templates(files: &Vec<TemplateFile>) -> (r: Result<tera::Tera, tera::Error>)
    ensures
        r is Ok == templates_compile(template_pairs(files@)),
{
    let mut t = tera::Tera::default();
    t.add_raw_templates(files.iter().map(|f| (f.name.as_str(), f.content.as_str())))?;
    Ok(t)
}

/// Relies on `mime_guess::from_path` and `MimeGuess::first_raw`: the first
/// content type known for the path's extension; no disk access.
#[verifier::external_body]
fn guess_mime(path: &str) -> (r: Option<String>)
    ensures
        r is None == guessed_mime(path@) is None,
        r matches Some(m) ==> guessed_mime(path@) == Some(m@),
{
    mime_guess::from_path(path).first_raw().map(|m| m.to_owned())
}

/// The directory of theme `name`, relative to the asset root.
pub open spec fn theme_dir_of(name: Seq<char>) -> Seq<char> {
    THEMES_DIR@ + name
}

/// The static directory of theme `name`, relative to the asset root.
pub open spec fn static_root_of(name: Seq<char>) -> Seq<char> {
    theme_dir_of(name) + STATIC_SUFFIX@
}

/// The content type for a guess: the guess, or `OCTET_STREAM` without one.
pub open spec fn content_type_of(guess: Option<Seq<char>>) -> Seq<char> {
    match guess {
        Some(m) => m,
        None => OCTET_STREAM@,
    }
}

/// The missing parts of a theme, in the order manifest, layouts, static.
pub open spec fn missing_parts(files: ThemeFiles) -> Seq<ThemePart> {
    (if files.manifest is None { seq![ThemePart::Manifest] } else { seq![] })
        + (if files.layouts is None { seq![ThemePart::Layouts] } else { seq![] })
        + (if !files.static_exists { seq![ThemePart::Static] } else { seq![] })
}

/// Every alias of the manifest resolves inside the layouts directory.
pub open spec fn aliases_clean(mapping: Seq<LayoutAlias>) -> bool {
    forall|i: int| 0 <= i < mapping.len() ==> clean_relative(#[trigger] mapping[i].file@)
}

/// Every template name resolves inside the layouts directory.
pub open spec fn template_names_clean(files: Seq<TemplateFile>) -> bool {
    forall|i: int| 0 <= i < files.len() ==> clean_relative(#[trigger] files[i].name@)
}

/// The theme is named by one clean path segment and its directory exists.
pub open spec fn theme_found(name: Seq<char>, files: ThemeFiles) -> bool {
    single_segment(name) && files.root_exists
}

/// Manifest, layouts and static directory are all present.
pub open spec fn theme_complete(files: ThemeFiles) -> bool {
    missing_parts(files).len() == 0
}

/// The manifest parsed and its aliases and the template names all stay
/// inside the layouts directory.
pub open spec fn theme_paths_clean(files: ThemeFiles) -> bool {
    &&& files.manifest matches Some(Ok(d)) && aliases_clean(d.layout_mapping@)
    &&& files.layouts matches Some(l) && template_names_clean(l@)
}

/// The theme's templates compile.
pub open spec fn theme_compiles(files: ThemeFiles) -> bool {
    files.layouts matches Some(l) && templates_compile(template_pairs(l@))
}

/// `e` is the error for loading the theme named by `settings` from `files`:
/// the first check that fails decides it, in the order name and theme
/// directory (`ThemeNotFound`), the three parts, all of them (`BrokenTheme`),
/// the manifest (`ManifestParseError`, with the parser's message), template
/// names and alias targets (`PathTraversalRejected`), and the templates
/// (`TemplateError`).
pub open spec fn load_error(settings: ThemeServiceSettings, files: ThemeFiles, e: StateLoadError) -> bool {
    let name = settings.current@;
    &&& !theme_found(name, files) ==> (e matches StateLoadError::ThemeNotFound(n) && n@ == name)
    &&& theme_found(name, files) && !theme_complete(files) ==> (e matches StateLoadError::BrokenTheme(
        n,
        parts,
    ) && n@ == name && parts@ == missing_parts(files))
    &&& theme_found(name, files) && theme_complete(files) ==> (files.manifest matches Some(Err(m))
        ==> (e matches StateLoadError::ManifestParseError(n, msg) && n@ == name && msg == m))
    &&& theme_found(name, files) && theme_complete(files) && (files.manifest matches Some(Ok(_)))
        && !theme_paths_clean(files) ==> (e matches StateLoadError::PathTraversalRejected(n) && n@
        == name)
    &&& theme_found(name, files) && theme_paths_clean(files) && files.static_exists
        && !theme_compiles(files) ==> (e matches StateLoadError::TemplateError(n, _) && n@ == name)
}

/// Whether `name` is usable as a theme name, and then the theme's directory
/// relative to the asset root.
pub fn theme_dir(name: &str) -> (r: Option<String>)
    ensures
        r is Some <==> single_segment(name@),
        r matches Some(d) ==> d@ == theme_dir_of(name@),
{
    if !is_single_segment(name) {
        return None;
    }
    let mut d = THEMES_DIR.to_owned();
    d.append(name);
    Some(d)
}

/// The content type for a guessed one (see `content_type_of`).
pub fn content_type_from_guess(guess: Option<String>) -> (r: String)
    ensures
        r@ == content_type_of(match guess {
            Some(m) => Some(m@),
            None => None,
        }),
{
    match guess {
        Some(m) => m,
        None => OCTET_STREAM.to_owned(),
    }
}

/// The content type of a file, guessed from its path's extension.
pub fn content_type_for(path: &str) -> (r: String)
    ensures
        r@ == content_type_of(guessed_mime(path@)),
{
    content_type_from_guess(guess_mime(path))
}

/// Builds a theme from its files, checking, in this order: the name and the
/// theme directory (`ThemeNotFound`), the three parts, all of them
/// (`BrokenTheme`), the manifest (`ManifestParseError`), template names and
/// alias targets (`PathTraversalRejected`), and the templates themselves
/// (`TemplateError`).
pub fn prepare_theme(settings: &ThemeServiceSettings, files: ThemeFiles) -> (r: Result<
    LoadedTheme,
    StateLoadError,
>)
    ensures
        r is Ok <==> theme_found(settings.current@, files) && files.static_exists && theme_paths_clean(
            files,
        ) && theme_compiles(files),
        r matches Err(e) ==> load_error(*settings, files, e),
        r matches Ok(t) ==> t.name@ == settings.current@ && files.manifest == Some(
            Ok::<ThemeDefinition, String>(t.definition),
        ),
{
    let name = &settings.current;
    if !is_single_segment(name.as_str()) || !files.root_exists {
        return Err(StateLoadError::ThemeNotFound(name.clone()));
    }
    let mut missing: Vec<ThemePart> = Vec::new();
    if files.manifest.is_none() {
        missing.push(ThemePart::Manifest);
    }
    if files.layouts.is_none() {
        missing.push(ThemePart::Layouts);
    }
    if !files.static_exists {
        missing.push(ThemePart::Static);
    }
    assert(missing@ =~= missing_parts(files));
    if missing.len() > 0 {
        return Err(StateLoadError::BrokenTheme(name.clone(), missing));
    }
    let ghost files0 = files;
    let definition = match files.manifest {
        Some(Ok(d)) => d,
        Some(Err(m)) => {
            return Err(StateLoadError::ManifestParseError(name.clone(), m));
        },
        None => {
            return Err(StateLoadError::BrokenTheme(name.clone(), missing));
        },
    };
    let layouts = match files.layouts {
        Some(l) => l,
        None => {
            return Err(StateLoadError::BrokenTheme(name.clone(), missing));
        },
    };
    let n = definition.layout_mapping.len();
    let mut i: usize = 0;
    while i < n
        invariant
            files0 == files,
            name@ == settings.current@,
            theme_found(settings.current@, files0),
            theme_complete(files0),
            files0.manifest == Some(Ok::<ThemeDefinition, String>(definition)),
            files0.layouts == Some(layouts),
            n == definition.layout_mapping@.len(),
            i <= n,
            forall|j: int| 0 <= j < i ==> clean_relative(#[trigger] definition.layout_mapping@[j].file@),
        decreases n - i,
    {
        if !is_clean_relative(definition.layout_mapping[i].file.as_str()) {
            return Err(StateLoadError::PathTraversalRejected(name.clone()));
        }
        i = i + 1;
    }
    let m = layouts.len();
    let mut k: usize = 0;
    while k < m
        invariant
            files0 == files,
            name@ == settings.current@,
            theme_found(settings.current@, files0),
            theme_complete(files0),
            files0.manifest == Some(Ok::<ThemeDefinition, String>(definition)),
            files0.layouts == Some(layouts),
            aliases_clean(definition.layout_mapping@),
            m == layouts@.len(),
            k <= m,
            forall|j: int| 0 <= j < k ==> clean_relative(#[trigger] layouts@[j].name@),
        decreases m - k,
    {
        if !is_clean_relative(layouts[k].name.as_str()) {
            return Err(StateLoadError::PathTraversalRejected(name.clone()));
        }
        k = k + 1;
    }
    match compile_templates(&layouts) {
        Ok(renderer) => Ok(LoadedTheme { name: name.clone(), definition, renderer }),
        Err(e) => Err(StateLoadError::TemplateError(name.clone(), e)),
    }
}

/// What loading the theme named by `settings` from `files` does: it succeeds
/// exactly when the theme is found, complete, clean and compiles, and then
/// makes that theme active; otherwise it gives the error `load_error`
/// describes and leaves the state as it was.
pub open spec fn load_outcome(
    before: ThemeServiceState,
    after: ThemeServiceState,
    settings: ThemeServiceSettings,
    files: ThemeFiles,
    r: Result<(), StateLoadError>,
) -> bool {
    &&& r is Ok <==> theme_found(settings.current@, files) && files.static_exists
        && theme_paths_clean(files) && theme_compiles(files)
    &&& r matches Err(e) ==> load_error(settings, files, e)
    &&& r is Err ==> after == before
    &&& r is Ok ==> (after.current matches Some(t) && t.name@ == settings.current@
        && files.manifest == Some(Ok::<ThemeDefinition, String>(t.definition)))
}

impl ThemeServiceState {
    /// A state with no active theme.
    pub fn new() -> (r: ThemeServiceState)
        ensures
            r.current is None,
    {
        ThemeServiceState { current: None }
    }

    /// Makes `theme` the active theme, replacing the previous one as a whole.
    pub fn install(&mut self, theme: LoadedTheme)
        ensures
            final(self).current == Some(theme),
    {
        self.current = Some(theme);
    }

    /// Builds the theme named by `settings` from `files` (see
    /// `prepare_theme`) and makes it active; on any failure the active theme
    /// is left as it was.
    pub fn load_theme(&mut self, settings: &ThemeServiceSettings, files: ThemeFiles) -> (r: Result<
        (),
        StateLoadError,
    >)
        ensures
            load_outcome(*old(self), *final(self), *settings, files, r),
    {
        match prepare_theme(settings, files) {
            Ok(t) => {
                self.install(t);
                Ok(())
            },
            Err(e) => Err(e),
        }
    }

    /// The layout file that renders `name` in the active theme.
    pub fn resolve_template(&self, name: &str) -> (r: Option<String>)
        ensures
            r is None <==> self.current is None,
            r matches Some(f) ==> f@ == crate::theme_definition::mapped_file(
                self.current->0.definition.layout_mapping@,
                name@,
            ),
    {
        match &self.current {
            None => None,
            Some(t) => Some(t.definition.map_layout_file(name)),
        }
    }

    /// The active theme's template set and the layout file that `name` maps
    /// to, for rendering the page `name`.
    pub fn render_target(&self, name: &str) -> (r: Result<(&tera::Tera, String), ThemeRenderError>)
        ensures
            self.current is None <==> r matches Err(ThemeRenderError::NoLoadedTheme),
            r is Err ==> self.current is None,
            r matches Ok((t, f)) ==> *t == self.current->0.renderer && f@
                == crate::theme_definition::mapped_file(
                self.current->0.definition.layout_mapping@,
                name@,
            ),
    {
        match &self.current {
            None => Err(ThemeRenderError::NoLoadedTheme),
            Some(t) => Ok((&t.renderer, t.definition.map_layout_file(name))),
        }
    }

    /// Where the static file `path` of the active theme lies, and its content
    /// type. `path` is resolved below the static directory (see
    /// `resolve_below`); a path that is absolute, climbs above that directory
    /// or resolves to the directory itself is not found, so nothing outside it
    /// is ever named.
    pub fn serve_static(&self, path: &str) -> (r: Result<StaticFile, StaticServingError>)
        ensures
            self.current is None ==> r == Err::<StaticFile, StaticServingError>(
                StaticServingError::NoLoadedTheme,
            ),
            self.current is Some && resolve_below(path@) is None ==> r == Err::<
                StaticFile,
                StaticServingError,
            >(StaticServingError::NotFound),
            r is Ok <==> self.current is Some && resolve_below(path@) is Some,
            r matches Ok(f) ==> f.root@ == static_root_of(self.current->0.name@) && f.path@
                == static_root_of(self.current->0.name@) + seq!['/'] + resolve_below(path@)->0
                && f.content_type@ == content_type_of(guessed_mime(resolve_below(path@)->0)),
    {
        match &self.current {
            None => Err(StaticServingError::NoLoadedTheme),
            Some(t) => {
                let rel = match resolve_below_root(path) {
                    Some(rel) => rel,
                    None => {
                        return Err(StaticServingError::NotFound);
                    },
                };
                let mut root = THEMES_DIR.to_owned();
                root.append(t.name.as_str());
                root.append(STATIC_SUFFIX);
                let mut file = root.clone();
                file.append("/");
                file.append(rel.as_str());
                proof {
                    reveal_strlit("/");
                }
                Ok(StaticFile { root, path: file, content_type: content_type_for(rel.as_str()) })
            },
        }
    }
}

/// Loading a theme whose directory does not exist fails with `ThemeNotFound`
/// and leaves the previously active theme, renderer included, in place.
pub proof fn lemma_missing_theme_keeps_active(
    before: ThemeServiceState,
    after: ThemeServiceState,
    settings: ThemeServiceSettings,
    files: ThemeFiles,
    r: Result<(), StateLoadError>,
)
    requires
        load_outcome(before, after, settings, files, r),
        !files.root_exists,
    ensures
        r matches Err(StateLoadError::ThemeNotFound(n)) && n@ == settings.current@,
        after.current == before.current,
{
}

/// Loading a theme whose layouts or static directory is missing fails with
/// `BrokenTheme` naming that part, and leaves the previously active theme in
/// place.
pub proof fn lemma_broken_theme_keeps_active(
    before: ThemeServiceState,
    after: ThemeServiceState,
    settings: ThemeServiceSettings,
    files: ThemeFiles,
    r: Result<(), StateLoadError>,
)
    requires
        load_outcome(before, after, settings, files, r),
        theme_found(settings.current@, files),
        files.layouts is None || !files.static_exists,
    ensures
        r matches Err(StateLoadError::BrokenTheme(n, parts)) && n@ == settings.current@ && (
        files.layouts is None ==> parts@.contains(ThemePart::Layouts)) && (!files.static_exists
            ==> parts@.contains(ThemePart::Static)),
        after.current == before.current,
{
    let parts = missing_parts(files);
    if files.layouts is None {
        let i: int = if files.manifest is None { 1 } else { 0 };
        assert(parts[i] == ThemePart::Layouts);
    }
    if !files.static_exists {
        assert(parts[parts.len() - 1] == ThemePart::Static);
    }
}

/// A static path that starts by climbing out of the static directory
/// (`..` as its first segment) resolves to nothing, so it is not found.
pub proof fn lemma_escaping_static_path_not_found(path: Seq<char>)
    requires
        path.len() >= 2,
        path[0] == '.',
        path[1] == '.',
        path.len() == 2 || path[2] == '/',
    ensures
        resolve_below(path) is None,
{
    let p1 = path.subrange(0, 1);
    let p2 = path.subrange(0, 2);
    assert(p1.drop_last() =~= Seq::<char>::empty());
    assert(p2.drop_last() =~= p1);
    assert(p1.last() == '.' && p2.last() == '.');
    assert(scan_path(Seq::<char>::empty()) == (Some(Seq::<Seq<char>>::empty()), Seq::<char>::empty()));
    assert(scan_path(p1) == (Some(Seq::<Seq<char>>::empty()), Seq::<char>::empty().push('.')));
    assert(scan_path(p1).1 =~= seq!['.']);
    assert(scan_path(p2).1 =~= seq!['.'].push('.'));
    assert(scan_path(p2).1 =~= seq!['.', '.']);
    assert(scan_path(p2).0 == Some(Seq::<Seq<char>>::empty()));
    if path.len() == 2 {
        assert(p2 =~= path);
    } else {
        let p3 = path.subrange(0, 3);
        assert(p3.drop_last() =~= p2);
        assert(scan_path(p3).0 is None);
        lemma_scan_out_stays_out(path, 3, path.len() as int);
        assert(path.subrange(0, path.len() as int) =~= path);
    }
}

} // verus!
