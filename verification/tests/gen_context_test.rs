use feature_generator::args_parser::{Cli, Command};
use feature_generator::generation::gen_context::{
    AppCtx, Config, CtxCreationError, Feature, FeatureGenCtx, GenCtx, Library, Subfeature,
};

fn default_app_ctx() -> AppCtx {
    AppCtx {
        is_testing: false,
        app_name: "test_app_name".into(),
        base_package: "test.base.package".into(),
    }
}

fn cli_with_command(command: Command) -> Cli {
    Cli {
        debug: false,
        base_package: Some("test.base.package".into()),
        app_name: Some("test_app_name".into()),
        command,
    }
}

#[test]
fn app_name_missing() {
    let cli = Cli {
        debug: false,
        base_package: Some("test.base.package".into()),
        app_name: None,
        command: Command::GenFeat {
            feature: "test_feature".into(),
        },
    };

    assert_eq!(Err(CtxCreationError::AppNameMissing), GenCtx::from_cli(cli))
}

#[test]
fn base_package_missing() {
    let cli = Cli {
        debug: false,
        base_package: None,
        app_name: Some("test_app_name".into()),
        command: Command::GenFeat {
            feature: "test_feature".into(),
        },
    };

    assert_eq!(
        Err(CtxCreationError::BasePackageNameMissing),
        GenCtx::from_cli(cli),
    )
}

#[test]
fn generate_feature() {
    let cli = cli_with_command(Command::GenFeat {
        feature: "test_feature".into(),
    });

    assert_eq!(
        Ok(Feature {
            app_context: default_app_ctx(),
            feature_name: "test_feature".into(),
        }
        .into()),
        GenCtx::from_cli(cli)
    );
}

#[test]
fn gen_context_generate_subfeature() {
    let cli = cli_with_command(Command::GenSubfeat {
        feature: "test_feature".into(),
        screen: "test_subfeature".into(),
    });

    assert_eq!(
        Ok(Subfeature {
            app_context: default_app_ctx(),
            feature_name: "test_feature".into(),
            subfeature_name: "test_subfeature".into(),
        }
        .into()),
        GenCtx::from_cli(cli)
    )
}

#[test]
fn gen_config() {
    let cli = cli_with_command(Command::Config {
        global: true,
        base_package: Some("test.base.package".into()),
        app_name: Some("test_app_name".into()),
    });

    assert_eq!(
        Ok(Config {
            app_name: Some("test_app_name".into()),
            base_package_name: Some("test.base.package".into()),
            global: true
        }
        .into()),
        GenCtx::from_cli(cli)
    );
}

#[test]
fn config_command_still_requires_app_name() {
    let cli = Cli {
        debug: false,
        base_package: Some("test.base.package".into()),
        app_name: None,
        command: Command::Config {
            global: false,
            base_package: None,
            app_name: None,
        },
    };

    assert_eq!(Err(CtxCreationError::AppNameMissing), GenCtx::from_cli(cli));
}

#[test]
fn generate_library_context() {
    let cli = cli_with_command(Command::GenLib {
        lib: "face-detection".into(),
    });

    assert_eq!(
        Ok(Library {
            app_context: default_app_ctx(),
            library_name: "face-detection".into(),
        }
        .into()),
        GenCtx::from_cli(cli)
    );
}

#[test]
fn feature_path() {
    let app_ctx = default_app_ctx();

    assert_eq!(
        "feature/test-feature",
        app_ctx.feature_path("test-feature").as_str()
    )
}

#[test]
fn feature_impl_path() {
    let app_ctx = default_app_ctx();

    assert_eq!(
        "feature/test-feature/impl",
        app_ctx.feature_impl_path("test-feature").as_str()
    )
}

#[test]
fn feature_impl_path_package_path() {
    let app_ctx = default_app_ctx();

    assert_eq!(
        "feature/test-feature/impl/src/main/kotlin/test/base/package",
        app_ctx.feature_impl_package_path("test-feature").as_str()
    )
}

#[test]
fn feature_api_path() {
    let app_ctx = default_app_ctx();

    assert_eq!(
        "feature/test-feature/api",
        app_ctx.feature_api_path("test-feature").as_str()
    )
}

#[test]
fn feature_api_path_package_path() {
    let app_ctx = default_app_ctx();

    assert_eq!(
        "feature/test-feature/api/src/main/kotlin/test/base/package",
        app_ctx.feature_api_package_path("test-feature").as_str()
    )
}

#[test]
fn base_package_path_part() {
    let app_ctx = default_app_ctx();

    assert_eq!("test/base/package", app_ctx.base_package_path_part().as_str())
}

#[test]
fn feature_name() {
    let feature = Feature {
        app_context: default_app_ctx(),
        feature_name: "test-feature".into(),
    };

    let root = FeatureGenCtx::Root(feature);

    assert_eq!("test-feature", root.feature_name())
}

#[test]
fn app_ctx_and_module_name_accessors() {
    let library = Library {
        app_context: default_app_ctx(),
        library_name: "face-detection".into(),
    };
    let ctx = GenCtx::from(library);

    match &ctx {
        GenCtx::App(app) => {
            assert_eq!(&default_app_ctx(), app.app_ctx());
            assert_eq!("face-detection", app.module_name());
        }
        GenCtx::Config(_) => panic!("a library resolves to an app context"),
    }
    assert_eq!(Some(&default_app_ctx()), ctx.app_ctx());

    let config_ctx = GenCtx::from(Config {
        app_name: None,
        base_package_name: None,
        global: false,
    });
    assert_eq!(None, config_ctx.app_ctx());
}

#[test]
fn feature_gen_ctx_package_paths() {
    let subfeature = Subfeature {
        app_context: default_app_ctx(),
        feature_name: "test-feature".into(),
        subfeature_name: "details".into(),
    };
    let ctx = FeatureGenCtx::Subfeature(subfeature);

    assert_eq!(
        "feature/test-feature/impl/src/main/kotlin/test/base/package",
        ctx.impl_package_path().as_str()
    );
    assert_eq!(
        "feature/test-feature/api/src/main/kotlin/test/base/package",
        ctx.api_package_path().as_str()
    );
}
