//! The generation plan: which files each command creates and amends.
//!
//! A [`GenCtx`](gen_context::GenCtx) resolves to a [`GenerationPlan`]: the
//! artifacts to render, the amendments to apply to existing registry files,
//! and the configuration lines to persist.  The binary around the crate
//! renders each artifact's template and performs the file input/output.

pub mod gen_context;
pub mod render;

use crate::helpers::spec_camel;
use crate::helpers::spec_flat;
use crate::helpers::spec_kebab;
use crate::helpers::spec_pascal;
use crate::helpers::to_camel;
use crate::helpers::to_flat;
use crate::helpers::to_kebab;
use crate::helpers::to_pascal;
use gen_context::AppCtx;
use gen_context::AppGenCtx;
use gen_context::Config;
use gen_context::FeatureGenCtx;
use gen_context::Feature;
use gen_context::GenCtx;
use gen_context::Library;
use gen_context::Subfeature;
use gen_context::spec_dots_to_slashes;
use vstd::prelude::*;
use vstd::string::*;

verus! {

/// The substitution context a template is rendered against.  Keys that do
/// not apply to the generated variant are absent.
#[derive(Debug, PartialEq)]
pub struct HandlebarsContext {
    /// The dotted base package name.
    pub base_package: Option<String>,
    /// The application name.
    pub app: Option<String>,
    /// The feature or library name.
    pub module: Option<String>,
    /// The name of the first screen of a feature.
    pub first_page: Option<String>,
}

/// The substitution context that a generation context resolves to.
pub open spec fn spec_handlebars_context(ctx: GenCtx) -> HandlebarsContext {
    match ctx {
        GenCtx::App(AppGenCtx::Feature(FeatureGenCtx::Root(f))) => HandlebarsContext {
            base_package: Some(f.app_context.base_package),
            app: Some(f.app_context.app_name),
            module: Some(f.feature_name),
            first_page: Some(f.feature_name),
        },
        GenCtx::App(AppGenCtx::Feature(FeatureGenCtx::Subfeature(s))) => HandlebarsContext {
            base_package: Some(s.app_context.base_package),
            app: Some(s.app_context.app_name),
            module: Some(s.feature_name),
            first_page: Some(s.subfeature_name),
        },
        GenCtx::App(AppGenCtx::Library(l)) => HandlebarsContext {
            base_package: Some(l.app_context.base_package),
            app: Some(l.app_context.app_name),
            module: Some(l.library_name),
            first_page: None,
        },
        GenCtx::Config(_) => HandlebarsContext {
            base_package: None,
            app: None,
            module: None,
            first_page: None,
        },
    }
}

impl HandlebarsContext {
    /// The substitution context of a generation context: base package,
    /// application name and module name for a feature or library, plus the
    /// first page for a feature; all keys absent for a configuration write.
    pub fn new(generation_context: &GenCtx) -> (r: Self)
        ensures
            r == spec_handlebars_context(*generation_context),
    {
        match generation_context {
            GenCtx::App(AppGenCtx::Feature(FeatureGenCtx::Root(f))) => HandlebarsContext {
                base_package: Some(f.app_context.base_package.clone()),
                app: Some(f.app_context.app_name.clone()),
                module: Some(f.feature_name.clone()),
                first_page: Some(f.feature_name.clone()),
            },
            GenCtx::App(AppGenCtx::Feature(FeatureGenCtx::Subfeature(s))) => HandlebarsContext {
                base_package: Some(s.app_context.base_package.clone()),
                app: Some(s.app_context.app_name.clone()),
                module: Some(s.feature_name.clone()),
                first_page: Some(s.subfeature_name.clone()),
            },
            GenCtx::App(AppGenCtx::Library(l)) => HandlebarsContext {
                base_package: Some(l.app_context.base_package.clone()),
                app: Some(l.app_context.app_name.clone()),
                module: Some(l.library_name.clone()),
                first_page: None,
            },
            GenCtx::Config(_) => HandlebarsContext {
                base_package: None,
                app: None,
                module: None,
                first_page: None,
            },
        }
    }
}

/// The fixed catalogue of templates the tool renders.
#[derive(Debug, PartialEq, Eq, Structural, Clone, Copy)]
pub enum TemplateId {
    /// The feature-entry interface in a feature's API module.
    ApiFeatureEntry,
    /// The build script of a feature's API module.
    ApiBuild,
    /// The build script of a feature's implementation module.
    ImplBuild,
    /// The root class of a feature's implementation module.
    FeatureRoot,
    /// The subfeature class.
    Subfeature,
    /// The screen of a subfeature.
    PageScreen,
    /// The view model of a subfeature's screen.
    PageViewModel,
    /// The build script of a library's API module.
    LibApiBuild,
    /// The provider interface in a library's API module.
    LibProvider,
    /// The example use-case interface in a library's API module.
    GetExample,
    /// The build script of a library's implementation module.
    LibImplBuild,
    /// The declaration class of a library's implementation module.
    LibDecl,
    /// The example use case in a library's implementation module.
    GetExampleUseCase,
}

/// One file to generate: where it goes, what it is called, and which
/// template fills it.
#[derive(Debug, PartialEq)]
pub struct Artifact {
    /// The directory the file goes into.
    pub dir: String,
    /// The file's name.
    pub file_name: String,
    /// The template rendered into the file.
    pub template: TemplateId,
}

/// Where an amendment inserts its line.
#[derive(Debug, PartialEq)]
pub enum InsertPolicy {
    /// Directly below the first line in which the pattern occurs.
    Below(String),
    /// At the end of the file.
    AtEnd,
}

/// One textual edit of an existing file.
#[derive(Debug, PartialEq)]
pub struct AmendmentOp {
    /// The file to edit.
    pub target: String,
    /// Where the line goes.
    pub policy: InsertPolicy,
    /// The line (or newline-joined lines) to insert.
    pub line: String,
}

/// Whether a module registers as a feature or as a library.
#[derive(Debug, PartialEq, Eq, Structural, Clone, Copy)]
pub enum ModuleKind {
    /// A feature module.
    Feature,
    /// A library module.
    Library,
}

/// An artifact has exactly this directory, file name and template.
pub open spec fn artifact_is(a: Artifact, dir: Seq<char>, file: Seq<char>, t: TemplateId) -> bool {
    a.dir@ == dir && a.file_name@ == file && a.template == t
}

/// The directory that holds the application entry point.
pub open spec fn spec_application_root(base_package: Seq<char>, app_name: Seq<char>) -> Seq<char> {
    "app/src/main/java/"@ + spec_dots_to_slashes(base_package) + "/"@ + spec_flat(app_name)
}

/// The directory of a feature's root class.
pub open spec fn spec_feature_root_path(base_package: Seq<char>, feature_name: Seq<char>) -> Seq<
    char,
> {
    gen_context::spec_feature_impl_package_path(base_package, feature_name) + "/root"@
}

/// The directory that holds a feature's subfeatures.
pub open spec fn spec_subfeature_package_path(
    base_package: Seq<char>,
    feature_name: Seq<char>,
) -> Seq<char> {
    gen_context::spec_feature_impl_package_path(base_package, feature_name) + "/subfeature"@
}

/// The package directory inside a library's API module.
pub open spec fn spec_library_api_base_package_path(
    base_package: Seq<char>,
    app_name: Seq<char>,
    library_name: Seq<char>,
) -> Seq<char> {
    "library/"@ + library_name + "/api/src/main/kotlin/"@ + spec_dots_to_slashes(base_package)
        + "/"@ + spec_flat(app_name) + "/"@ + spec_flat(library_name)
}

/// The package directory inside a library's implementation module.
pub open spec fn spec_library_impl_base_package_path(
    base_package: Seq<char>,
    app_name: Seq<char>,
    library_name: Seq<char>,
) -> Seq<char> {
    "library/"@ + library_name + "/impl/src/main/kotlin/"@ + spec_dots_to_slashes(base_package)
        + "/"@ + spec_flat(app_name) + "/"@ + spec_flat(library_name) + "/impl"@
}

/// The directory that holds the shared build sources.
pub fn build_src_path() -> (r: String)
    ensures
        r@ == "buildSrc/src/main/kotlin"@,
{
    String::from_str("buildSrc/src/main/kotlin")
}

/// The directory that holds the application entry point.
pub fn application_root(app_ctx: &AppCtx) -> (r: String)
    ensures
        r@ == spec_application_root(app_ctx.base_package@, app_ctx.app_name@),
{
    let mut p = String::from_str("app/src/main/java/");
    let bp = app_ctx.base_package_path_part();
    p.append(bp.as_str());
    p.append("/");
    let flat_app = to_flat(app_ctx.app_name.as_str());
    p.append(flat_app.as_str());
    p
}

/// The directory of a feature's root class.
pub fn feature_root_path(app_ctx: &AppCtx, feature_name: &str) -> (r: String)
    ensures
        r@ == spec_feature_root_path(app_ctx.base_package@, feature_name@),
{
    let mut p = app_ctx.feature_impl_package_path(feature_name);
    p.append("/root");
    p
}

/// The directory that holds a feature's subfeatures.
pub fn subfeature_package_path(app_ctx: &AppCtx, feature_name: &str) -> (r: String)
    ensures
        r@ == spec_subfeature_package_path(app_ctx.base_package@, feature_name@),
{
    let mut p = app_ctx.feature_impl_package_path(feature_name);
    p.append("/subfeature");
    p
}

/// The package directory inside a library's API module.
pub fn library_api_base_package_path(library: &Library) -> (r: String)
    ensures
        r@ == spec_library_api_base_package_path(
            library.app_context.base_package@,
            library.app_context.app_name@,
            library.library_name@,
        ),
{
    let mut p = String::from_str("library/");
    p.append(library.library_name.as_str());
    p.append("/api/src/main/kotlin/");
    let bp = library.app_context.base_package_path_part();
    p.append(bp.as_str());
    p.append("/");
    let flat_app = to_flat(library.app_context.app_name.as_str());
    p.append(flat_app.as_str());
    p.append("/");
    let flat_lib = to_flat(library.library_name.as_str());
    p.append(flat_lib.as_str());
    p
}

/// The package directory inside a library's implementation module.
pub fn library_impl_base_package_path(library: &Library) -> (r: String)
    ensures
        r@ == spec_library_impl_base_package_path(
            library.app_context.base_package@,
            library.app_context.app_name@,
            library.library_name@,
        ),
{
    let mut p = String::from_str("library/");
    p.append(library.library_name.as_str());
    p.append("/impl/src/main/kotlin/");
    let bp = library.app_context.base_package_path_part();
    p.append(bp.as_str());
    p.append("/");
    let flat_app = to_flat(library.app_context.app_name.as_str());
    p.append(flat_app.as_str());
    p.append("/");
    let flat_lib = to_flat(library.library_name.as_str());
    p.append(flat_lib.as_str());
    p.append("/impl");
    p
}

/// The three artifacts of a subfeature: the subfeature class, its screen,
/// and the screen's view model.
pub open spec fn subfeature_artifacts_ok(r: Seq<Artifact>, s: Subfeature) -> bool {
    let sub_dir = spec_subfeature_package_path(s.app_context.base_package@, s.feature_name@)
        + "/"@ + spec_flat(s.subfeature_name@);
    let screen_dir = sub_dir + "/screen"@;
    &&& r.len() == 3
    &&& artifact_is(
        r[0],
        sub_dir,
        spec_pascal(s.subfeature_name@) + "Subfeature.kt"@,
        TemplateId::Subfeature,
    )
    &&& artifact_is(
        r[1],
        screen_dir,
        spec_pascal(s.subfeature_name@) + "Screen.kt"@,
        TemplateId::PageScreen,
    )
    &&& artifact_is(
        r[2],
        screen_dir,
        spec_pascal(s.subfeature_name@) + "ScreenViewModel.kt"@,
        TemplateId::PageViewModel,
    )
}

/// The seven artifacts of a new feature: its API entry and build script,
/// its implementation build script and root class, and the three artifacts
/// of its self-titled first subfeature.
pub open spec fn feature_root_artifacts_ok(r: Seq<Artifact>, f: Feature) -> bool {
    let bp = f.app_context.base_package@;
    let n = f.feature_name@;
    &&& r.len() == 7
    &&& artifact_is(
        r[0],
        gen_context::spec_feature_api_package_path(bp, n),
        spec_pascal(n) + "FeatureEntry.kt"@,
        TemplateId::ApiFeatureEntry,
    )
    &&& artifact_is(
        r[1],
        gen_context::spec_feature_api_path(n),
        "build.gradle.kts"@,
        TemplateId::ApiBuild,
    )
    &&& artifact_is(
        r[2],
        gen_context::spec_feature_impl_path(n),
        "build.gradle.kts"@,
        TemplateId::ImplBuild,
    )
    &&& artifact_is(
        r[3],
        spec_feature_root_path(bp, n),
        spec_pascal(n) + "FeatureRoot.kt"@,
        TemplateId::FeatureRoot,
    )
    &&& subfeature_artifacts_ok(
        r.skip(4),
        Subfeature {
            app_context: f.app_context,
            feature_name: f.feature_name,
            subfeature_name: f.feature_name,
        },
    )
}

/// The six artifacts of a new library: API build script, provider, example
/// interface, implementation build script, declaration, and example use
/// case.
pub open spec fn library_artifacts_ok(r: Seq<Artifact>, l: Library) -> bool {
    let bp = l.app_context.base_package@;
    let app = l.app_context.app_name@;
    let n = l.library_name@;
    let api_pkg = spec_library_api_base_package_path(bp, app, n);
    let impl_pkg = spec_library_impl_base_package_path(bp, app, n);
    &&& r.len() == 6
    &&& artifact_is(
        r[0],
        "library/"@ + n + "/api"@,
        "build.gradle.kts"@,
        TemplateId::LibApiBuild,
    )
    &&& artifact_is(r[1], api_pkg, spec_pascal(n) + "Provider.kt"@, TemplateId::LibProvider)
    &&& artifact_is(r[2], api_pkg, "GetExample.kt"@, TemplateId::GetExample)
    &&& artifact_is(
        r[3],
        "library/"@ + n + "/impl"@,
        "build.gradle.kts"@,
        TemplateId::LibImplBuild,
    )
    &&& artifact_is(r[4], impl_pkg, spec_pascal(n) + ".kt"@, TemplateId::LibDecl)
    &&& artifact_is(
        r[5],
        impl_pkg + "/usecase"@,
        "GetExampleUseCase.kt"@,
        TemplateId::GetExampleUseCase,
    )
}

/// The path-segment name of a module kind.
pub open spec fn spec_mod_type(kind: ModuleKind) -> Seq<char> {
    match kind {
        ModuleKind::Feature => "feature"@,
        ModuleKind::Library => "library"@,
    }
}

/// The marker line of the class registry that a new module is listed under.
pub open spec fn spec_registry_pattern(kind: ModuleKind) -> Seq<char> {
    match kind {
        ModuleKind::Feature => "features ="@,
        ModuleKind::Library => "libraries ="@,
    }
}

/// The class reference inserted into the application's registry list.
pub open spec fn spec_class_line(kind: ModuleKind, name: Seq<char>) -> Seq<char> {
    match kind {
        ModuleKind::Feature => "        "@ + spec_pascal(name) + "FeatureRoot::class,"@,
        ModuleKind::Library => "        "@ + spec_pascal(name) + "::class,"@,
    }
}

/// The import inserted into the application entry point; it names the class
/// inside the package that the module's root class is generated into.
pub open spec fn spec_import_line(
    kind: ModuleKind,
    base_package: Seq<char>,
    app_name: Seq<char>,
    name: Seq<char>,
) -> Seq<char> {
    match kind {
        ModuleKind::Feature => "import "@ + base_package + "."@ + spec_flat(name) + ".impl.root."@
            + spec_pascal(name) + "FeatureRoot"@,
        ModuleKind::Library => "import "@ + base_package + "."@ + spec_flat(app_name) + "."@
            + spec_flat(name) + ".impl."@ + spec_pascal(name),
    }
}

/// The two include statements appended to the settings manifest.
pub open spec fn spec_settings_lines(kind: ModuleKind, name: Seq<char>) -> Seq<char> {
    "include(\":"@ + spec_mod_type(kind) + ":"@ + name + ":api\")\ninclude(\":"@ + spec_mod_type(
        kind,
    ) + ":"@ + name + ":impl\")"@
}

/// The dependency-accessor definition appended to the shared build sources.
pub open spec fn spec_accessor_line(kind: ModuleKind, name: Seq<char>) -> Seq<char> {
    "val DependencyHandlerScope."@ + spec_camel(name) + " get() = createProject(\":"@
        + spec_mod_type(kind) + ":"@ + spec_kebab(name) + "\")"@
}

/// The dependency declaration inserted into the application build script.
pub open spec fn spec_dependency_line(name: Seq<char>) -> Seq<char> {
    "    implementation(*"@ + spec_camel(name) + ".all())"@
}

/// An amendment has exactly this target, insertion point and line.
pub open spec fn amendment_is(
    op: AmendmentOp,
    target: Seq<char>,
    pat: Option<Seq<char>>,
    line: Seq<char>,
) -> bool {
    &&& op.target@ == target
    &&& op.line@ == line
    &&& match pat {
        Some(p) => op.policy matches InsertPolicy::Below(q) && q@ == p,
        None => op.policy is AtEnd,
    }
}

/// The five amendments that register a new module: its class reference and
/// import in the application entry point, its two include statements in the
/// settings manifest, its dependency accessor in the shared build sources,
/// and its dependency declaration in the application build script.
pub open spec fn amendments_ok(
    r: Seq<AmendmentOp>,
    app: AppCtx,
    kind: ModuleKind,
    name: Seq<char>,
) -> bool {
    let app_class = spec_application_root(app.base_package@, app.app_name@) + "/Application.kt"@;
    &&& r.len() == 5
    &&& amendment_is(
        r[0],
        app_class,
        Some(spec_registry_pattern(kind)),
        spec_class_line(kind, name),
    )
    &&& amendment_is(
        r[1],
        app_class,
        Some("import "@),
        spec_import_line(kind, app.base_package@, app.app_name@, name),
    )
    &&& amendment_is(r[2], "settings.gradle.kts"@, None, spec_settings_lines(kind, name))
    &&& amendment_is(
        r[3],
        "buildSrc/src/main/kotlin/app-modules.kt"@,
        None,
        spec_accessor_line(kind, name),
    )
    &&& amendment_is(r[4], "app/build.gradle.kts"@, Some("dependencies"@), spec_dependency_line(name))
}

/// Plans the three files of a new subfeature.
pub fn generate_subfeature(subfeature: &Subfeature) -> (r: Vec<Artifact>)
    ensures
        subfeature_artifacts_ok(r@, *subfeature),
{
    let mut sub_dir = subfeature_package_path(
        &subfeature.app_context,
        subfeature.feature_name.as_str(),
    );
    sub_dir.append("/");
    let flat_sub = to_flat(subfeature.subfeature_name.as_str());
    sub_dir.append(flat_sub.as_str());
    let mut screen_dir = sub_dir.clone();
    screen_dir.append("/screen");
    let screen_dir2 = screen_dir.clone();

    let mut subfeature_file = to_pascal(subfeature.subfeature_name.as_str());
    subfeature_file.append("Subfeature.kt");
    let mut screen_file = to_pascal(subfeature.subfeature_name.as_str());
    screen_file.append("Screen.kt");
    let mut view_model_file = to_pascal(subfeature.subfeature_name.as_str());
    view_model_file.append("ScreenViewModel.kt");

    let mut r: Vec<Artifact> = Vec::new();
    r.push(Artifact { dir: sub_dir, file_name: subfeature_file, template: TemplateId::Subfeature });
    r.push(Artifact { dir: screen_dir, file_name: screen_file, template: TemplateId::PageScreen });
    r.push(
        Artifact {
            dir: screen_dir2,
            file_name: view_model_file,
            template: TemplateId::PageViewModel,
        },
    );
    r
}

/// Plans the files of a new feature: its API and implementation artifacts
/// and, as a side effect of every new feature, its self-titled first
/// subfeature.
pub fn generate_feature_root(feature: &Feature) -> (r: Vec<Artifact>)
    ensures
        feature_root_artifacts_ok(r@, *feature),
{
    let mut entry_file = to_pascal(feature.feature_name.as_str());
    entry_file.append("FeatureEntry.kt");
    let mut root_file = to_pascal(feature.feature_name.as_str());
    root_file.append("FeatureRoot.kt");

    let mut r: Vec<Artifact> = Vec::new();
    r.push(
        Artifact {
            dir: feature.app_context.feature_api_package_path(feature.feature_name.as_str()),
            file_name: entry_file,
            template: TemplateId::ApiFeatureEntry,
        },
    );
    r.push(
        Artifact {
            dir: feature.app_context.feature_api_path(feature.feature_name.as_str()),
            file_name: String::from_str("build.gradle.kts"),
            template: TemplateId::ApiBuild,
        },
    );
    r.push(
        Artifact {
            dir: feature.app_context.feature_impl_path(feature.feature_name.as_str()),
            file_name: String::from_str("build.gradle.kts"),
            template: TemplateId::ImplBuild,
        },
    );
    r.push(
        Artifact {
            dir: feature_root_path(&feature.app_context, feature.feature_name.as_str()),
            file_name: root_file,
            template: TemplateId::FeatureRoot,
        },
    );

    let self_titled = Subfeature {
        app_context: AppCtx {
            is_testing: feature.app_context.is_testing,
            app_name: feature.app_context.app_name.clone(),
            base_package: feature.app_context.base_package.clone(),
        },
        feature_name: feature.feature_name.clone(),
        subfeature_name: feature.feature_name.clone(),
    };
    proof {
        assert(self_titled.app_context == feature.app_context);
    }
    let mut sub = generate_subfeature(&self_titled);
    let ghost sub_view = sub@;
    r.append(&mut sub);
    proof {
        assert(r@.skip(4) =~= sub_view);
    }
    r
}

/// Plans the six files of a new library.
pub fn generate_library(library: &Library) -> (r: Vec<Artifact>)
    ensures
        library_artifacts_ok(r@, *library),
{
    let mut api_dir = String::from_str("library/");
    api_dir.append(library.library_name.as_str());
    api_dir.append("/api");
    let mut impl_dir = String::from_str("library/");
    impl_dir.append(library.library_name.as_str());
    impl_dir.append("/impl");

    let mut provider_file = to_pascal(library.library_name.as_str());
    provider_file.append("Provider.kt");
    let mut decl_file = to_pascal(library.library_name.as_str());
    decl_file.append(".kt");

    let api_pkg = library_api_base_package_path(library);
    let impl_pkg = library_impl_base_package_path(library);
    let api_pkg2 = api_pkg.clone();
    let impl_pkg2 = impl_pkg.clone();
    let mut usecase_dir = impl_pkg.clone();
    usecase_dir.append("/usecase");

    let mut r: Vec<Artifact> = Vec::new();
    r.push(
        Artifact {
            dir: api_dir,
            file_name: String::from_str("build.gradle.kts"),
            template: TemplateId::LibApiBuild,
        },
    );
    r.push(Artifact { dir: api_pkg, file_name: provider_file, template: TemplateId::LibProvider });
    r.push(
        Artifact {
            dir: api_pkg2,
            file_name: String::from_str("GetExample.kt"),
            template: TemplateId::GetExample,
        },
    );
    r.push(
        Artifact {
            dir: impl_dir,
            file_name: String::from_str("build.gradle.kts"),
            template: TemplateId::LibImplBuild,
        },
    );
    r.push(Artifact { dir: impl_pkg, file_name: decl_file, template: TemplateId::LibDecl });
    r.push(
        Artifact {
            dir: usecase_dir,
            file_name: String::from_str("GetExampleUseCase.kt"),
            template: TemplateId::GetExampleUseCase,
        },
    );
    r
}

/// Plans the five registry amendments of a new feature or library module.
pub fn amend_existing_files(app_ctx: &AppCtx, kind: ModuleKind, name: &str) -> (r: Vec<
    AmendmentOp,
>)
    ensures
        amendments_ok(r@, *app_ctx, kind, name@),
{
    let mut app_class = application_root(app_ctx);
    app_class.append("/Application.kt");
    let app_class2 = app_class.clone();

    let registry_pattern = match kind {
        ModuleKind::Feature => String::from_str("features ="),
        ModuleKind::Library => String::from_str("libraries ="),
    };
    let mut class_line = String::from_str("        ");
    let pascal = to_pascal(name);
    class_line.append(pascal.as_str());
    match kind {
        ModuleKind::Feature => class_line.append("FeatureRoot::class,"),
        ModuleKind::Library => class_line.append("::class,"),
    };

    let mut import_line = String::from_str("import ");
    import_line.append(app_ctx.base_package.as_str());
    import_line.append(".");
    match kind {
        ModuleKind::Feature => {
            let flat = to_flat(name);
            import_line.append(flat.as_str());
            import_line.append(".impl.root.");
            let pascal = to_pascal(name);
            import_line.append(pascal.as_str());
            import_line.append("FeatureRoot");
        },
        ModuleKind::Library => {
            let flat_app = to_flat(app_ctx.app_name.as_str());
            import_line.append(flat_app.as_str());
            import_line.append(".");
            let flat = to_flat(name);
            import_line.append(flat.as_str());
            import_line.append(".impl.");
            let pascal = to_pascal(name);
            import_line.append(pascal.as_str());
        },
    };

    let mod_type = match kind {
        ModuleKind::Feature => "feature",
        ModuleKind::Library => "library",
    };
    let mut settings_lines = String::from_str("include(\":");
    settings_lines.append(mod_type);
    settings_lines.append(":");
    settings_lines.append(name);
    settings_lines.append(":api\")\ninclude(\":");
    settings_lines.append(mod_type);
    settings_lines.append(":");
    settings_lines.append(name);
    settings_lines.append(":impl\")");
    proof {
        assert(settings_lines@ =~= spec_settings_lines(kind, name@));
    }

    let mut accessor_line = String::from_str("val DependencyHandlerScope.");
    let camel = to_camel(name);
    accessor_line.append(camel.as_str());
    accessor_line.append(" get() = createProject(\":");
    accessor_line.append(mod_type);
    accessor_line.append(":");
    let kebab = to_kebab(name);
    accessor_line.append(kebab.as_str());
    accessor_line.append("\")");
    proof {
        assert(accessor_line@ =~= spec_accessor_line(kind, name@));
    }

    let mut dependency_line = String::from_str("    implementation(*");
    let camel2 = to_camel(name);
    dependency_line.append(camel2.as_str());
    dependency_line.append(".all())");

    let mut r: Vec<AmendmentOp> = Vec::new();
    r.push(
        AmendmentOp {
            target: app_class,
            policy: InsertPolicy::Below(registry_pattern),
            line: class_line,
        },
    );
    r.push(
        AmendmentOp {
            target: app_class2,
            policy: InsertPolicy::Below(String::from_str("import ")),
            line: import_line,
        },
    );
    r.push(
        AmendmentOp {
            target: String::from_str("settings.gradle.kts"),
            policy: InsertPolicy::AtEnd,
            line: settings_lines,
        },
    );
    r.push(
        AmendmentOp {
            target: String::from_str("buildSrc/src/main/kotlin/app-modules.kt"),
            policy: InsertPolicy::AtEnd,
            line: accessor_line,
        },
    );
    r.push(
        AmendmentOp {
            target: String::from_str("app/build.gradle.kts"),
            policy: InsertPolicy::Below(String::from_str("dependencies")),
            line: dependency_line,
        },
    );
    r
}

/// The configuration lines a configuration write persists: the base package
/// line when a base package was given, then the application-name line when
/// an application name was given.
pub open spec fn spec_config_lines(config: Config) -> Seq<Seq<char>> {
    let base: Seq<Seq<char>> = match config.base_package_name {
        Some(package) => seq!["base-package = \""@ + package@ + "\""@],
        None => Seq::empty(),
    };
    let app: Seq<Seq<char>> = match config.app_name {
        Some(name) => seq!["app-name = \""@ + name@ + "\""@],
        None => Seq::empty(),
    };
    base + app
}

/// Plans the contents of a configuration write: only the keys present are
/// written, the base package line always before the application-name line.
pub fn generate_config(config: &Config) -> (r: Vec<String>)
    ensures
        r@.map_values(|l: String| l@) == spec_config_lines(*config),
{
    let mut r: Vec<String> = Vec::new();
    proof {
        assert(r@.map_values(|l: String| l@) =~= Seq::<Seq<char>>::empty());
    }
    if let Some(package) = &config.base_package_name {
        let mut line = String::from_str("base-package = \"");
        line.append(package.as_str());
        line.append("\"");
        proof {
            assert((r@.push(line)).map_values(|l: String| l@) =~= r@.map_values(
                |l: String| l@,
            ).push(line@));
        }
        r.push(line);
    }
    if let Some(name) = &config.app_name {
        let mut line = String::from_str("app-name = \"");
        line.append(name.as_str());
        line.append("\"");
        proof {
            assert((r@.push(line)).map_values(|l: String| l@) =~= r@.map_values(
                |l: String| l@,
            ).push(line@));
        }
        r.push(line);
    }
    proof {
        assert(r@.map_values(|l: String| l@) =~= spec_config_lines(*config));
    }
    r
}

/// Everything one invocation does to the file system, as data.
#[derive(Debug, PartialEq)]
pub struct GenerationPlan {
    /// The files to render, in order.
    pub artifacts: Vec<Artifact>,
    /// The edits to apply to existing files, in order.
    pub amendments: Vec<AmendmentOp>,
    /// The configuration write, for a configuration command.
    pub config: Option<ConfigWrite>,
}

/// A planned configuration write.
#[derive(Debug, PartialEq)]
pub struct ConfigWrite {
    /// Whether the per-user file is written instead of the local one.
    pub global: bool,
    /// The lines of the file.
    pub lines: Vec<String>,
}

/// The whole plan of a generation context.
pub open spec fn generation_plan_ok(r: GenerationPlan, ctx: GenCtx) -> bool {
    match ctx {
        GenCtx::App(AppGenCtx::Feature(FeatureGenCtx::Root(f))) => {
            &&& feature_root_artifacts_ok(r.artifacts@, f)
            &&& amendments_ok(r.amendments@, f.app_context, ModuleKind::Feature, f.feature_name@)
            &&& r.config is None
        },
        GenCtx::App(AppGenCtx::Feature(FeatureGenCtx::Subfeature(s))) => {
            &&& subfeature_artifacts_ok(r.artifacts@, s)
            &&& r.amendments@.len() == 0
            &&& r.config is None
        },
        GenCtx::App(AppGenCtx::Library(l)) => {
            &&& library_artifacts_ok(r.artifacts@, l)
            &&& amendments_ok(r.amendments@, l.app_context, ModuleKind::Library, l.library_name@)
            &&& r.config is None
        },
        GenCtx::Config(c) => {
            &&& r.artifacts@.len() == 0
            &&& r.amendments@.len() == 0
            &&& r.config matches Some(w) && w.global == c.global
                && w.lines@.map_values(|l: String| l@) == spec_config_lines(c)
        },
    }
}

/// Plans everything the given generation context generates and amends.
pub fn generate(ctx: &GenCtx) -> (r: GenerationPlan)
    ensures
        generation_plan_ok(r, *ctx),
{
    match ctx {
        GenCtx::App(AppGenCtx::Feature(FeatureGenCtx::Root(f))) => GenerationPlan {
            artifacts: generate_feature_root(f),
            amendments: amend_existing_files(
                &f.app_context,
                ModuleKind::Feature,
                f.feature_name.as_str(),
            ),
            config: None,
        },
        GenCtx::App(AppGenCtx::Feature(FeatureGenCtx::Subfeature(s))) => GenerationPlan {
            artifacts: generate_subfeature(s),
            amendments: Vec::new(),
            config: None,
        },
        GenCtx::App(AppGenCtx::Library(l)) => GenerationPlan {
            artifacts: generate_library(l),
            amendments: amend_existing_files(
                &l.app_context,
                ModuleKind::Library,
                l.library_name.as_str(),
            ),
            config: None,
        },
        GenCtx::Config(c) => GenerationPlan {
            artifacts: Vec::new(),
            amendments: Vec::new(),
            config: Some(ConfigWrite { global: c.global, lines: generate_config(c) }),
        },
    }
}

} // verus!

