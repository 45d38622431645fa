use std::path::PathBuf;

use statick_pack::context::Context;
use statick_pack::manifest::StaticWebsiteManifest;
use statick_pack::manifest::TemplateEntry;
use statick_pack::site_build::BuildStage;
use statick_pack::site_build::BuildStep;

fn context(entries: &[(&str, &str)]) -> Context {
    let mut context = Context::new();
    for (key, value) in entries {
        context.insert(key.to_string(), value.to_string());
    }
    context
}

fn page(template_name: &str, output_name: &str, entries: &[(&str, &str)]) -> TemplateEntry {
    TemplateEntry {
        template_name: template_name.to_string(),
        output_name: output_name.to_string(),
        context: context(entries),
    }
}

fn site(tera_templates: Vec<TemplateEntry>, copy_paths: &[&str]) -> StaticWebsiteManifest {
    StaticWebsiteManifest {
        asset_manifest_path: PathBuf::from("assets.json"),
        asset_cache_manifest_path: PathBuf::from("internal/assets_cache.json"),
        asset_directory_path: PathBuf::from("assets"),
        internal_directory_path: PathBuf::from("internal"),
        static_directory_path: PathBuf::from("output/static"),
        static_base_url: "/static/".to_string(),
        tera_input_directory: "templates/**/*".to_string(),
        html_output_directory_path: PathBuf::from("output"),
        tera_templates,
        context: context(&[("site", "Example"), ("title", "Untitled")]),
        copy_output_directory_path: PathBuf::from("output"),
        copy_input_directory_path: PathBuf::from("files"),
        copy_paths: copy_paths.iter().map(PathBuf::from).collect(),
    }
}

fn stages_when_all_succeed(manifest: &StaticWebsiteManifest) -> Vec<BuildStage> {
    let mut stages = Vec::new();
    let mut stage = manifest.first_stage();
    while stage != BuildStage::Finished {
        assert!(manifest.step(stage).is_some());
        stages.push(stage);
        stage = manifest.next_stage(stage, true);
    }
    stages
}

fn sorted(context: &Context) -> Vec<(String, String)> {
    let mut entries = context.entries().clone();
    entries.sort();
    entries
}

#[test]
fn a_build_starts_with_packing() {
    assert_eq!(site(Vec::new(), &[]).first_stage(), BuildStage::PackAssets);
}

#[test]
fn stages_follow_the_manifest_order() {
    let manifest = site(
        vec![page("index.html", "index.html", &[]), page("about.html", "about/index.html", &[])],
        &["robots.txt", "img/logo.png", "favicon.ico"],
    );
    assert_eq!(
        stages_when_all_succeed(&manifest),
        vec![
            BuildStage::PackAssets,
            BuildStage::LoadCacheManifest,
            BuildStage::InitTemplates,
            BuildStage::RenderTemplate(0),
            BuildStage::RenderTemplate(1),
            BuildStage::CopyFile(0),
            BuildStage::CopyFile(1),
            BuildStage::CopyFile(2),
        ]
    );
}

#[test]
fn stages_of_a_site_without_pages_or_files() {
    assert_eq!(
        stages_when_all_succeed(&site(Vec::new(), &[])),
        vec![BuildStage::PackAssets, BuildStage::LoadCacheManifest, BuildStage::InitTemplates]
    );
    assert_eq!(
        stages_when_all_succeed(&site(Vec::new(), &["a"])),
        vec![
            BuildStage::PackAssets,
            BuildStage::LoadCacheManifest,
            BuildStage::InitTemplates,
            BuildStage::CopyFile(0),
        ]
    );
    assert_eq!(
        stages_when_all_succeed(&site(vec![page("a", "a", &[])], &[])),
        vec![
            BuildStage::PackAssets,
            BuildStage::LoadCacheManifest,
            BuildStage::InitTemplates,
            BuildStage::RenderTemplate(0),
        ]
    );
}

#[test]
fn any_failure_ends_the_build() {
    let manifest = site(vec![page("a", "a", &[]), page("b", "b", &[])], &["x", "y"]);
    for stage in stages_when_all_succeed(&manifest) {
        assert_eq!(manifest.next_stage(stage, false), BuildStage::Failed);
    }
    assert!(manifest.step(BuildStage::Failed).is_none());
    assert_eq!(manifest.next_stage(BuildStage::Failed, true), BuildStage::Failed);
    assert_eq!(manifest.next_stage(BuildStage::Failed, false), BuildStage::Failed);
}

#[test]
fn a_finished_build_stays_finished() {
    let manifest = site(vec![page("a", "a", &[])], &["x"]);
    assert!(manifest.step(BuildStage::Finished).is_none());
    assert_eq!(manifest.next_stage(BuildStage::Finished, true), BuildStage::Finished);
    assert_eq!(manifest.next_stage(BuildStage::Finished, false), BuildStage::Finished);
}

#[test]
fn stages_beyond_the_manifest_have_no_step() {
    let manifest = site(vec![page("a", "a", &[])], &["x"]);
    assert!(manifest.step(BuildStage::RenderTemplate(1)).is_none());
    assert!(manifest.step(BuildStage::CopyFile(1)).is_none());
    assert!(manifest.step(BuildStage::CopyFile(usize::MAX)).is_none());
    assert_eq!(manifest.next_stage(BuildStage::RenderTemplate(7), true), BuildStage::CopyFile(0));
    assert_eq!(manifest.next_stage(BuildStage::CopyFile(7), true), BuildStage::Finished);
    assert_eq!(
        manifest.next_stage(BuildStage::RenderTemplate(usize::MAX), true),
        BuildStage::CopyFile(0)
    );
}

#[test]
fn packing_uses_the_manifest_directories() {
    let manifest = site(Vec::new(), &[]);
    match manifest.step(BuildStage::PackAssets) {
        Some(BuildStep::PackAssets {
            asset_manifest_path,
            asset_cache_manifest_path,
            source_directory_path,
            internal_directory_path,
            target_directory_path,
        }) => {
            assert_eq!(asset_manifest_path, &PathBuf::from("assets.json"));
            assert_eq!(asset_cache_manifest_path, &PathBuf::from("internal/assets_cache.json"));
            assert_eq!(source_directory_path, &PathBuf::from("assets"));
            assert_eq!(internal_directory_path, &PathBuf::from("internal"));
            assert_eq!(target_directory_path, &PathBuf::from("output/static"));
        },
        other => panic!("{:?}", other),
    }
    match manifest.step(BuildStage::LoadCacheManifest) {
        Some(BuildStep::LoadCacheManifest { asset_cache_manifest_path }) => {
            assert_eq!(asset_cache_manifest_path, &PathBuf::from("internal/assets_cache.json"));
        },
        other => panic!("{:?}", other),
    }
    match manifest.step(BuildStage::InitTemplates) {
        Some(BuildStep::InitTemplates { tera_input_directory, static_base_url }) => {
            assert_eq!(tera_input_directory, "templates/**/*");
            assert_eq!(static_base_url, "/static/");
        },
        other => panic!("{:?}", other),
    }
}

#[test]
fn page_context_goes_on_top_of_site_context() {
    let manifest = site(
        vec![
            page("index.html", "index.html", &[]),
            page("about.html", "about/index.html", &[("title", "About"), ("nav", "2")]),
        ],
        &[],
    );
    match manifest.step(BuildStage::RenderTemplate(0)) {
        Some(BuildStep::RenderTemplate {
            template_name,
            context,
            output_directory_path,
            output_name,
        }) => {
            assert_eq!(template_name, "index.html");
            assert_eq!(output_name, "index.html");
            assert_eq!(output_directory_path, &PathBuf::from("output"));
            assert_eq!(
                sorted(&context),
                vec![
                    ("site".to_string(), "Example".to_string()),
                    ("title".to_string(), "Untitled".to_string()),
                ]
            );
        },
        other => panic!("{:?}", other),
    }
    match manifest.step(BuildStage::RenderTemplate(1)) {
        Some(BuildStep::RenderTemplate { template_name, context, output_name, .. }) => {
            assert_eq!(template_name, "about.html");
            assert_eq!(output_name, "about/index.html");
            assert_eq!(
                sorted(&context),
                vec![
                    ("nav".to_string(), "2".to_string()),
                    ("site".to_string(), "Example".to_string()),
                    ("title".to_string(), "About".to_string()),
                ]
            );
        },
        other => panic!("{:?}", other),
    }
}

#[test]
fn files_are_copied_under_the_same_relative_path() {
    let manifest = site(Vec::new(), &["robots.txt", "img/logo.png"]);
    match manifest.step(BuildStage::CopyFile(1)) {
        Some(BuildStep::CopyFile { input_directory_path, output_directory_path, path }) => {
            assert_eq!(input_directory_path, &PathBuf::from("files"));
            assert_eq!(output_directory_path, &PathBuf::from("output"));
            assert_eq!(path, &PathBuf::from("img/logo.png"));
        },
        other => panic!("{:?}", other),
    }
}
