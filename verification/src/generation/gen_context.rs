//! The generation context: what is being generated, and the path rules.
//!
//! A parsed command becomes exactly one [`GenCtx`] variant: a feature root, a
//! subfeature, a library, or a configuration write.  The path derivations
//! here are pure functions from the context to the directory that each
//! generated artifact lands in.

use crate::args_parser::{Cli, Command};
use crate::helpers::spec_kebab;
use crate::helpers::to_kebab;
use vstd::prelude::*;
use vstd::string::*;

verus! {

/// What one invocation generates.
#[derive(Debug, PartialEq)]
pub enum GenCtx {
    /// A source artifact of the application: a feature or a library.
    App(AppGenCtx),
    /// A configuration write.
    Config(Config),
}

/// A source artifact of the application: a feature or a library.
#[derive(Debug, PartialEq)]
pub enum AppGenCtx {
    /// A feature root or a subfeature.
    Feature(FeatureGenCtx),
    /// A standalone library.
    Library(Library),
}

/// A feature artifact: the root of a new feature, or a subfeature of an
/// existing one.
#[derive(Debug, PartialEq)]
pub enum FeatureGenCtx {
    /// A new top-level feature.
    Root(Feature),
    /// A new subfeature inside an existing feature.
    Subfeature(Subfeature),
}

/// Why a generation context could not be built from a command.
#[derive(Debug, PartialEq, Eq, Structural)]
pub enum CtxCreationError {
    /// No application name was given or configured.
    AppNameMissing,
    /// No base package name was given or configured.
    BasePackageNameMissing,
}

/// The application-wide data shared by every generated artifact.
#[derive(Debug, PartialEq, Clone)]
pub struct AppCtx {
    /// Whether debugging is turned on.
    pub is_testing: bool,
    /// The application name.
    pub app_name: String,
    /// The dotted base package name.
    pub base_package: String,
}

/// A new top-level feature.
#[derive(Debug, PartialEq)]
pub struct Feature {
    /// The application-wide data.
    pub app_context: AppCtx,
    /// The human-entered feature name.
    pub feature_name: String,
}

/// A new subfeature inside an existing feature.  `subfeature_name` equals
/// `feature_name` when a feature's first subfeature is created along with the
/// feature root.
#[derive(Debug, PartialEq)]
pub struct Subfeature {
    /// The application-wide data.
    pub app_context: AppCtx,
    /// The name of the existing feature.
    pub feature_name: String,
    /// The name of the new subfeature.
    pub subfeature_name: String,
}

/// A new standalone library.
#[derive(Debug, PartialEq)]
pub struct Library {
    /// The application-wide data.
    pub app_context: AppCtx,
    /// The human-entered library name.
    pub library_name: String,
}

/// A configuration write: the keys to persist, and where.
#[derive(Debug, PartialEq)]
pub struct Config {
    /// The application name to persist, if any.
    pub app_name: Option<String>,
    /// The base package name to persist, if any.
    pub base_package_name: Option<String>,
    /// Whether the per-user file is written instead of the local one.
    pub global: bool,
}

/// The dotted base package with each dot replaced by a path separator.
pub open spec fn spec_dots_to_slashes(bp: Seq<char>) -> Seq<char> {
    bp.map_values(|c: char| if c == '.' { '/' } else { c })
}

/// The directory of a feature module: `feature/<kebab name>`.
pub open spec fn spec_feature_path(feature_name: Seq<char>) -> Seq<char> {
    "feature/"@ + spec_kebab(feature_name)
}

/// The directory of a feature's implementation module.
pub open spec fn spec_feature_impl_path(feature_name: Seq<char>) -> Seq<char> {
    spec_feature_path(feature_name) + "/impl"@
}

/// The package directory inside a feature's implementation module.
pub open spec fn spec_feature_impl_package_path(
    base_package: Seq<char>,
    feature_name: Seq<char>,
) -> Seq<char> {
    spec_feature_impl_path(feature_name) + "/src/main/kotlin/"@ + spec_dots_to_slashes(
        base_package,
    )
}

/// The directory of a feature's API module.
pub open spec fn spec_feature_api_path(feature_name: Seq<char>) -> Seq<char> {
    spec_feature_path(feature_name) + "/api"@
}

/// The package directory inside a feature's API module.
pub open spec fn spec_feature_api_package_path(
    base_package: Seq<char>,
    feature_name: Seq<char>,
) -> Seq<char> {
    spec_feature_api_path(feature_name) + "/src/main/kotlin/"@ + spec_dots_to_slashes(
        base_package,
    )
}

impl AppCtx {
    /// The directory of a feature module: `feature/<kebab name>`.
    pub fn feature_path(&self, feature_name: &str) -> (r: String)
        ensures
            r@ == spec_feature_path(feature_name@),
    {
        let mut p = String::from_str("feature/");
        let kebab = to_kebab(feature_name);
        p.append(kebab.as_str());
        p
    }

    /// The directory of a feature's implementation module.
    pub fn feature_impl_path(&self, feature_name: &str) -> (r: String)
        ensures
            r@ == spec_feature_impl_path(feature_name@),
    {
        let mut p = self.feature_path(feature_name);
        p.append("/impl");
        p
    }

    /// The package directory inside a feature's implementation module.
    pub fn feature_impl_package_path(&self, feature_name: &str) -> (r: String)
        ensures
            r@ == spec_feature_impl_package_path(self.base_package@, feature_name@),
    {
        let mut p = self.feature_impl_path(feature_name);
        p.append("/src/main/kotlin/");
        let bp = self.base_package_path_part();
        p.append(bp.as_str());
        p
    }

    /// The directory of a feature's API module.
    pub fn feature_api_path(&self, feature_name: &str) -> (r: String)
        ensures
            r@ == spec_feature_api_path(feature_name@),
    {
        let mut p = self.feature_path(feature_name);
        p.append("/api");
        p
    }

    /// The package directory inside a feature's API module.
    pub fn feature_api_package_path(&self, feature_name: &str) -> (r: String)
        ensures
            r@ == spec_feature_api_package_path(self.base_package@, feature_name@),
    {
        let mut p = self.feature_api_path(feature_name);
        p.append("/src/main/kotlin/");
        let bp = self.base_package_path_part();
        p.append(bp.as_str());
        p
    }

    /// The base package as a relative directory path.
    pub fn base_package_path_part(&self) -> (r: String)
        ensures
            r@ == spec_dots_to_slashes(self.base_package@),
    {
        let bp = self.base_package.as_str();
        let n: usize = bp.unicode_len();
        let mut r = String::new();
        let mut i: usize = 0;
        while i < n
            invariant
                i <= n,
                n == bp@.len(),
                r@ == spec_dots_to_slashes(bp@.take(i as int)),
            decreases n - i,
        {
            let c = bp.get_char(i);
            if c == '.' {
                r.push('/');
            } else {
                r.push(c);
            }
            proof {
                assert(spec_dots_to_slashes(bp@.take(i as int + 1)) =~= spec_dots_to_slashes(
                    bp@.take(i as int),
                ).push(
                    if bp@[i as int] == '.' {
                        '/'
                    } else {
                        bp@[i as int]
                    },
                ));
            }
            i = i + 1;
        }
        proof {
            assert(bp@.take(n as int) =~= bp@);
        }
        r
    }
}

impl AppGenCtx {
    /// The application-wide data of this artifact.
    pub open spec fn spec_app_ctx(&self) -> AppCtx {
        match self {
            AppGenCtx::Feature(FeatureGenCtx::Root(feature)) => feature.app_context,
            AppGenCtx::Feature(FeatureGenCtx::Subfeature(subfeature)) => subfeature.app_context,
            AppGenCtx::Library(library) => library.app_context,
        }
    }

    /// The name of the module this artifact belongs to.
    pub open spec fn spec_module_name(&self) -> Seq<char> {
        match self {
            AppGenCtx::Feature(FeatureGenCtx::Root(feature)) => feature.feature_name@,
            AppGenCtx::Feature(FeatureGenCtx::Subfeature(subfeature)) => subfeature.feature_name@,
            AppGenCtx::Library(library) => library.library_name@,
        }
    }

    /// The application-wide data of this artifact.
    pub fn app_ctx(&self) -> (r: &AppCtx)
        ensures
            *r == self.spec_app_ctx(),
    {
        match self {
            AppGenCtx::Feature(FeatureGenCtx::Root(feature)) => &feature.app_context,
            AppGenCtx::Feature(FeatureGenCtx::Subfeature(subfeature)) => &subfeature.app_context,
            AppGenCtx::Library(library) => &library.app_context,
        }
    }

    /// The name of the module this artifact belongs to.
    pub fn module_name(&self) -> (r: &str)
        ensures
            r@ == self.spec_module_name(),
    {
        match self {
            AppGenCtx::Feature(FeatureGenCtx::Root(feature)) => feature.feature_name.as_str(),
            AppGenCtx::Feature(FeatureGenCtx::Subfeature(subfeature)) => {
                subfeature.feature_name.as_str()
            },
            AppGenCtx::Library(library) => library.library_name.as_str(),
        }
    }
}

impl FeatureGenCtx {
    /// The name of the feature this artifact belongs to.
    pub open spec fn spec_feature_name(&self) -> Seq<char> {
        match self {
            FeatureGenCtx::Root(r) => r.feature_name@,
            FeatureGenCtx::Subfeature(s) => s.feature_name@,
        }
    }

    /// The application-wide data of this artifact.
    pub open spec fn spec_app_ctx(&self) -> AppCtx {
        match self {
            FeatureGenCtx::Root(r) => r.app_context,
            FeatureGenCtx::Subfeature(s) => s.app_context,
        }
    }

    /// The name of the feature this artifact belongs to.
    pub fn feature_name(&self) -> (r: &str)
        ensures
            r@ == self.spec_feature_name(),
    {
        match self {
            FeatureGenCtx::Root(root) => root.feature_name.as_str(),
            FeatureGenCtx::Subfeature(subfeature) => subfeature.feature_name.as_str(),
        }
    }

    /// The package directory inside the feature's implementation module.
    pub fn impl_package_path(&self) -> (r: String)
        ensures
            r@ == spec_feature_impl_package_path(
                self.spec_app_ctx().base_package@,
                self.spec_feature_name(),
            ),
    {
        let (app_ctx, feature_name) = match self {
            FeatureGenCtx::Root(root) => (&root.app_context, root.feature_name.as_str()),
            FeatureGenCtx::Subfeature(subfeature) => {
                (&subfeature.app_context, subfeature.feature_name.as_str())
            },
        };
        app_ctx.feature_impl_package_path(feature_name)
    }

    /// The package directory inside the feature's API module.
    pub fn api_package_path(&self) -> (r: String)
        ensures
            r@ == spec_feature_api_package_path(
                self.spec_app_ctx().base_package@,
                self.spec_feature_name(),
            ),
    {
        let (app_ctx, feature_name) = match self {
            FeatureGenCtx::Root(root) => (&root.app_context, root.feature_name.as_str()),
            FeatureGenCtx::Subfeature(subfeature) => {
                (&subfeature.app_context, subfeature.feature_name.as_str())
            },
        };
        app_ctx.feature_api_package_path(feature_name)
    }
}

impl GenCtx {
    /// The application-wide data, absent for a configuration write.
    pub open spec fn spec_app_ctx(&self) -> Option<AppCtx> {
        match self {
            GenCtx::App(app) => Some(app.spec_app_ctx()),
            GenCtx::Config(_) => None,
        }
    }

    /// The application-wide data, absent for a configuration write.
    pub fn app_ctx(&self) -> (r: Option<&AppCtx>)
        ensures
            self.spec_app_ctx() matches Some(c) ==> (r matches Some(rc) && *rc == c),
            self.spec_app_ctx() is None ==> r is None,
    {
        match self {
            GenCtx::App(app) => Some(app.app_ctx()),
            GenCtx::Config(_) => None,
        }
    }
}

impl GenCtx {
    /// Wraps a new feature as a generation context.
    pub fn feature_context(feature: Feature) -> (r: GenCtx)
        ensures
            r == GenCtx::App(AppGenCtx::Feature(FeatureGenCtx::Root(feature))),
    {
        GenCtx::App(AppGenCtx::Feature(FeatureGenCtx::Root(feature)))
    }

    /// Wraps a new subfeature as a generation context.
    pub fn subfeature_context(subfeature: Subfeature) -> (r: GenCtx)
        ensures
            r == GenCtx::App(AppGenCtx::Feature(FeatureGenCtx::Subfeature(subfeature))),
    {
        GenCtx::App(AppGenCtx::Feature(FeatureGenCtx::Subfeature(subfeature)))
    }

    /// Wraps a new library as a generation context.
    pub fn library_context(library: Library) -> (r: GenCtx)
        ensures
            r == GenCtx::App(AppGenCtx::Library(library)),
    {
        GenCtx::App(AppGenCtx::Library(library))
    }

    /// Wraps a configuration write as a generation context.
    pub fn config_context(config: Config) -> (r: GenCtx)
        ensures
            r == GenCtx::Config(config),
    {
        GenCtx::Config(config)
    }
}

impl From<Feature> for GenCtx {
    fn from(val: Feature) -> (r: Self) {
        GenCtx::feature_context(val)
    }
}

impl vstd::std_specs::convert::FromSpecImpl<Feature> for GenCtx {
    open spec fn obeys_from_spec() -> bool {
        true
    }

    open spec fn from_spec(val: Feature) -> GenCtx {
        GenCtx::App(AppGenCtx::Feature(FeatureGenCtx::Root(val)))
    }
}

impl From<Subfeature> for GenCtx {
    fn from(val: Subfeature) -> (r: Self) {
        GenCtx::subfeature_context(val)
    }
}

impl vstd::std_specs::convert::FromSpecImpl<Subfeature> for GenCtx {
    open spec fn obeys_from_spec() -> bool {
        true
    }

    open spec fn from_spec(val: Subfeature) -> GenCtx {
        GenCtx::App(AppGenCtx::Feature(FeatureGenCtx::Subfeature(val)))
    }
}

impl From<Library> for GenCtx {
    fn from(val: Library) -> (r: Self) {
        GenCtx::library_context(val)
    }
}

impl vstd::std_specs::convert::FromSpecImpl<Library> for GenCtx {
    open spec fn obeys_from_spec() -> bool {
        true
    }

    open spec fn from_spec(val: Library) -> GenCtx {
        GenCtx::App(AppGenCtx::Library(val))
    }
}

impl From<Config> for GenCtx {
    fn from(val: Config) -> (r: Self) {
        GenCtx::config_context(val)
    }
}

impl vstd::std_specs::convert::FromSpecImpl<Config> for GenCtx {
    open spec fn obeys_from_spec() -> bool {
        true
    }

    open spec fn from_spec(val: Config) -> GenCtx {
        GenCtx::Config(val)
    }
}

/// The application-wide data a command resolves to, assuming both names are
/// present.
pub open spec fn spec_app_ctx_of(cli: Cli) -> AppCtx {
    AppCtx {
        is_testing: cli.debug,
        app_name: cli.app_name->0,
        base_package: cli.base_package->0,
    }
}

/// The generation context a command resolves to, assuming both names are
/// present.
pub open spec fn spec_ctx_of(cli: Cli) -> GenCtx {
    match cli.command {
        Command::GenFeat { feature } => GenCtx::App(
            AppGenCtx::Feature(
                FeatureGenCtx::Root(
                    Feature { app_context: spec_app_ctx_of(cli), feature_name: feature },
                ),
            ),
        ),
        Command::GenSubfeat { feature, screen } => GenCtx::App(
            AppGenCtx::Feature(
                FeatureGenCtx::Subfeature(
                    Subfeature {
                        app_context: spec_app_ctx_of(cli),
                        feature_name: feature,
                        subfeature_name: screen,
                    },
                ),
            ),
        ),
        Command::GenLib { lib } => GenCtx::App(
            AppGenCtx::Library(Library { app_context: spec_app_ctx_of(cli), library_name: lib }),
        ),
        Command::Config { global, base_package, app_name } => GenCtx::Config(
            Config { app_name, base_package_name: base_package, global },
        ),
    }
}

impl GenCtx {
    /// Builds the generation context of a parsed command.  The application
    /// name and the base package must both have been resolved, whichever
    /// command was chosen; each is reported missing in that order.
    pub fn from_cli(cli: Cli) -> (r: Result<Self, CtxCreationError>)
        ensures
            cli.app_name is None ==> r == Err::<GenCtx, CtxCreationError>(
                CtxCreationError::AppNameMissing,
            ),
            cli.app_name is Some && cli.base_package is None ==> r == Err::<
                GenCtx,
                CtxCreationError,
            >(CtxCreationError::BasePackageNameMissing),
            cli.app_name is Some && cli.base_package is Some ==> r == Ok::<
                GenCtx,
                CtxCreationError,
            >(spec_ctx_of(cli)),
    {
        let Cli { debug, base_package, app_name, command } = cli;
        let app_name = match app_name {
            Some(name) => name,
            None => {
                return Err(CtxCreationError::AppNameMissing);
            },
        };
        let base_package = match base_package {
            Some(package) => package,
            None => {
                return Err(CtxCreationError::BasePackageNameMissing);
            },
        };
        let app_context = AppCtx { is_testing: debug, app_name, base_package };
        match command {
            Command::GenFeat { feature } => {
                let feature = Feature { app_context, feature_name: feature };
                Ok(GenCtx::from(feature))
            },
            Command::GenSubfeat { feature, screen } => {
                let subfeature = Subfeature {
                    app_context,
                    feature_name: feature,
                    subfeature_name: screen,
                };
                Ok(GenCtx::from(subfeature))
            },
            Command::GenLib { lib } => {
                let library = Library { app_context, library_name: lib };
                Ok(GenCtx::from(library))
            },
            Command::Config { global, base_package, app_name } => {
                let config = Config { app_name, base_package_name: base_package, global };
                Ok(GenCtx::from(config))
            },
        }
    }
}

} // verus!
