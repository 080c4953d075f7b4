use feature_generator::args_parser::{Cli, Command};
use feature_generator::generation::gen_context::{
    AppCtx, Config, Feature, GenCtx, Library, Subfeature,
};
use feature_generator::generation::{
    generate, generate_config, HandlebarsContext, InsertPolicy, TemplateId,
};

fn test_app_ctx() -> AppCtx {
    AppCtx {
        is_testing: false,
        app_name: "test-app".to_string(),
        base_package: "test.base.package".to_string(),
    }
}

#[test]
fn generate_feature_handlebars_context() {
    let cli = Cli {
        debug: false,
        base_package: Some("test.base.package".to_string()),
        app_name: Some("test-app-name".to_string()),
        command: Command::GenFeat {
            feature: "test-feature".to_string(),
        },
    };

    let generation_context = GenCtx::from_cli(cli).unwrap();

    let handlebars_context = HandlebarsContext::new(&generation_context);
    assert_eq!(
        HandlebarsContext {
            base_package: Some("test.base.package".to_string()),
            app: Some("test-app-name".to_string()),
            module: Some("test-feature".to_string()),
            first_page: Some("test-feature".to_string()),
        },
        handlebars_context
    )
}

#[test]
fn generate_subfeature_handlebars_context() {
    let cli = Cli {
        debug: false,
        base_package: Some("test.base.package".to_string()),
        app_name: Some("test-app-name".to_string()),
        command: Command::GenSubfeat {
            feature: "test-feature".to_string(),
            screen: "test-subfeature".to_string(),
        },
    };

    let generation_context = GenCtx::from_cli(cli).unwrap();

    let handlebars_context = HandlebarsContext::new(&generation_context);
    assert_eq!(
        HandlebarsContext {
            base_package: Some("test.base.package".to_string()),
            app: Some("test-app-name".to_string()),
            module: Some("test-feature".to_string()),
            first_page: Some("test-subfeature".to_string())
        },
        handlebars_context
    )
}

#[test]
fn generate_config_handlebars_context() {
    let handlebars_context = HandlebarsContext::new(&GenCtx::Config(Config {
        base_package_name: Some("test.base.package".to_string()),
        app_name: Some("test-app-name".to_string()),
        global: true,
    }));

    assert_eq!(
        HandlebarsContext {
            base_package: None,
            app: None,
            module: None,
            first_page: None
        },
        handlebars_context
    )
}

#[test]
fn feature_plan_is_complete() {
    let feature = Feature {
        app_context: test_app_ctx(),
        feature_name: "home".into(),
    };
    let ctx = GenCtx::from(feature);
    let plan = generate(&ctx);

    assert!(plan.config.is_none());
    assert_eq!(7, plan.artifacts.len());

    let a = &plan.artifacts;
    assert_eq!(
        "feature/home/api/src/main/kotlin/test/base/package",
        a[0].dir.as_str()
    );
    assert_eq!("HomeFeatureEntry.kt", a[0].file_name.as_str());
    assert_eq!(TemplateId::ApiFeatureEntry, a[0].template);

    assert_eq!("feature/home/api", a[1].dir.as_str());
    assert_eq!("build.gradle.kts", a[1].file_name.as_str());
    assert_eq!(TemplateId::ApiBuild, a[1].template);

    assert_eq!("feature/home/impl", a[2].dir.as_str());
    assert_eq!("build.gradle.kts", a[2].file_name.as_str());
    assert_eq!(TemplateId::ImplBuild, a[2].template);

    assert_eq!(
        "feature/home/impl/src/main/kotlin/test/base/package/root",
        a[3].dir.as_str()
    );
    assert_eq!("HomeFeatureRoot.kt", a[3].file_name.as_str());
    assert_eq!(TemplateId::FeatureRoot, a[3].template);

    assert_eq!(
        "feature/home/impl/src/main/kotlin/test/base/package/subfeature/home",
        a[4].dir.as_str()
    );
    assert_eq!("HomeSubfeature.kt", a[4].file_name.as_str());
    assert_eq!(TemplateId::Subfeature, a[4].template);

    assert_eq!(
        "feature/home/impl/src/main/kotlin/test/base/package/subfeature/home/screen",
        a[5].dir.as_str()
    );
    assert_eq!("HomeScreen.kt", a[5].file_name.as_str());
    assert_eq!(TemplateId::PageScreen, a[5].template);

    assert_eq!(
        "feature/home/impl/src/main/kotlin/test/base/package/subfeature/home/screen",
        a[6].dir.as_str()
    );
    assert_eq!("HomeScreenViewModel.kt", a[6].file_name.as_str());
    assert_eq!(TemplateId::PageViewModel, a[6].template);

    let ops = &plan.amendments;
    assert_eq!(5, ops.len());

    assert_eq!(
        "app/src/main/java/test/base/package/testapp/Application.kt",
        ops[0].target.as_str()
    );
    assert_eq!(
        InsertPolicy::Below("features =".to_string()),
        ops[0].policy
    );
    assert_eq!("        HomeFeatureRoot::class,", ops[0].line.as_str());

    assert_eq!(
        "app/src/main/java/test/base/package/testapp/Application.kt",
        ops[1].target.as_str()
    );
    assert_eq!(InsertPolicy::Below("import ".to_string()), ops[1].policy);
    assert_eq!(
        "import test.base.package.home.impl.root.HomeFeatureRoot",
        ops[1].line.as_str()
    );

    assert_eq!("settings.gradle.kts", ops[2].target.as_str());
    assert_eq!(InsertPolicy::AtEnd, ops[2].policy);
    assert_eq!(
        "include(\":feature:home:api\")\ninclude(\":feature:home:impl\")",
        ops[2].line.as_str()
    );

    assert_eq!("buildSrc/src/main/kotlin/app-modules.kt", ops[3].target.as_str());
    assert_eq!(InsertPolicy::AtEnd, ops[3].policy);
    assert_eq!(
        "val DependencyHandlerScope.home get() = createProject(\":feature:home\")",
        ops[3].line.as_str()
    );

    assert_eq!("app/build.gradle.kts", ops[4].target.as_str());
    assert_eq!(
        InsertPolicy::Below("dependencies".to_string()),
        ops[4].policy
    );
    assert_eq!("    implementation(*home.all())", ops[4].line.as_str());
}

#[test]
fn subfeature_plan_has_three_files() {
    let subfeature = Subfeature {
        app_context: test_app_ctx(),
        feature_name: "home".into(),
        subfeature_name: "home-details".into(),
    };
    let ctx = GenCtx::from(subfeature);
    let plan = generate(&ctx);

    assert!(plan.config.is_none());
    assert_eq!(0, plan.amendments.len());
    assert_eq!(3, plan.artifacts.len());

    let a = &plan.artifacts;
    assert_eq!(
        "feature/home/impl/src/main/kotlin/test/base/package/subfeature/homedetails",
        a[0].dir.as_str()
    );
    assert_eq!("HomeDetailsSubfeature.kt", a[0].file_name.as_str());
    assert_eq!(
        "feature/home/impl/src/main/kotlin/test/base/package/subfeature/homedetails/screen",
        a[1].dir.as_str()
    );
    assert_eq!("HomeDetailsScreen.kt", a[1].file_name.as_str());
    assert_eq!(
        "feature/home/impl/src/main/kotlin/test/base/package/subfeature/homedetails/screen",
        a[2].dir.as_str()
    );
    assert_eq!("HomeDetailsScreenViewModel.kt", a[2].file_name.as_str());
}

#[test]
fn library_plan_is_complete() {
    let lib = Library {
        app_context: AppCtx {
            is_testing: false,
            app_name: "my-app".to_string(),
            base_package: "test.base.package".to_string(),
        },
        library_name: "face-detection".to_string(),
    };
    let ctx = GenCtx::from(lib);
    let plan = generate(&ctx);

    assert!(plan.config.is_none());
    assert_eq!(6, plan.artifacts.len());

    let a = &plan.artifacts;
    assert_eq!("library/face-detection/api", a[0].dir.as_str());
    assert_eq!("build.gradle.kts", a[0].file_name.as_str());
    assert_eq!(TemplateId::LibApiBuild, a[0].template);

    assert_eq!(
        "library/face-detection/api/src/main/kotlin/test/base/package/myapp/facedetection",
        a[1].dir.as_str()
    );
    assert_eq!("FaceDetectionProvider.kt", a[1].file_name.as_str());
    assert_eq!(TemplateId::LibProvider, a[1].template);

    assert_eq!(
        "library/face-detection/api/src/main/kotlin/test/base/package/myapp/facedetection",
        a[2].dir.as_str()
    );
    assert_eq!("GetExample.kt", a[2].file_name.as_str());

    assert_eq!("library/face-detection/impl", a[3].dir.as_str());
    assert_eq!("build.gradle.kts", a[3].file_name.as_str());

    assert_eq!(
        "library/face-detection/impl/src/main/kotlin/test/base/package/myapp/facedetection/impl",
        a[4].dir.as_str()
    );
    assert_eq!("FaceDetection.kt", a[4].file_name.as_str());

    assert_eq!(
        "library/face-detection/impl/src/main/kotlin/test/base/package/myapp/facedetection/impl/usecase",
        a[5].dir.as_str()
    );
    assert_eq!("GetExampleUseCase.kt", a[5].file_name.as_str());

    let ops = &plan.amendments;
    assert_eq!(5, ops.len());
    assert_eq!(
        "app/src/main/java/test/base/package/myapp/Application.kt",
        ops[0].target.as_str()
    );
    assert_eq!(
        InsertPolicy::Below("libraries =".to_string()),
        ops[0].policy
    );
    assert_eq!("        FaceDetection::class,", ops[0].line.as_str());
    assert_eq!(
        "import test.base.package.myapp.facedetection.impl.FaceDetection",
        ops[1].line.as_str()
    );
    assert_eq!(
        "include(\":library:face-detection:api\")\ninclude(\":library:face-detection:impl\")",
        ops[2].line.as_str()
    );
    assert_eq!(
        "val DependencyHandlerScope.faceDetection get() = createProject(\":library:face-detection\")",
        ops[3].line.as_str()
    );
    assert_eq!("    implementation(*faceDetection.all())", ops[4].line.as_str());
}

#[test]
fn config_plan_writes_only_given_keys() {
    let config = Config {
        app_name: Some("my-app".to_string()),
        base_package_name: Some("com.my.app".to_string()),
        global: false,
    };
    let ctx = GenCtx::from(config);
    let plan = generate(&ctx);

    assert_eq!(0, plan.artifacts.len());
    assert_eq!(0, plan.amendments.len());
    let write = plan.config.expect("a config command plans a config write");
    assert!(!write.global);
    assert_eq!(
        vec![
            "base-package = \"com.my.app\"".to_string(),
            "app-name = \"my-app\"".to_string(),
        ],
        write.lines
    );
}

#[test]
fn config_lines_omit_absent_keys() {
    let only_app = Config {
        app_name: Some("my-app".to_string()),
        base_package_name: None,
        global: true,
    };
    assert_eq!(
        vec!["app-name = \"my-app\"".to_string()],
        generate_config(&only_app)
    );

    let only_package = Config {
        app_name: None,
        base_package_name: Some("com.my.app".to_string()),
        global: false,
    };
    assert_eq!(
        vec!["base-package = \"com.my.app\"".to_string()],
        generate_config(&only_package)
    );

    let neither = Config {
        app_name: None,
        base_package_name: None,
        global: false,
    };
    assert_eq!(Vec::<String>::new(), generate_config(&neither));
}
