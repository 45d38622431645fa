use std::collections::HashMap;
use std::path::PathBuf;

use artushak_web_assets::asset_cache::AssetCacheEntry;
use artushak_web_assets::asset_cache::AssetCacheManifestV1;
use artushak_web_assets::assets::AssetData;
use artushak_web_assets::assets::AssetFiltered;
use artushak_web_assets::assets::AssetSource;
use statick_pack::context::Context;
use statick_pack::filters::options::FilterOption;
use statick_pack::filters::options::FilterOptions;
use statick_pack::filters::run_executable::AssetFilterRunExecutable;
use statick_pack::manifest::StaticWebsiteManifest;
use statick_pack::manifest::TemplateEntry;
use statick_pack::site_build::BuildStage;
use statick_pack::site_build::BuildStep;
use statick_pack::tera_filter::get_tera_function_get_asset_url;
use statick_pack::tera_filter::ArgumentValue;
use statick_pack::tera_filter::Arguments;
use statick_pack::tera_filter::FUNCTION_NAME;

fn one_page_site() -> StaticWebsiteManifest {
    StaticWebsiteManifest {
        asset_manifest_path: PathBuf::from("assets.json"),
        asset_cache_manifest_path: PathBuf::from("internal/assets_cache.json"),
        asset_directory_path: PathBuf::from("assets"),
        internal_directory_path: PathBuf::from("internal"),
        static_directory_path: PathBuf::from("output/static"),
        static_base_url: "/static/".to_string(),
        tera_input_directory: "templates/*".to_string(),
        html_output_directory_path: PathBuf::from("output"),
        tera_templates: vec![TemplateEntry {
            template_name: "index.html".to_string(),
            output_name: "index.html".to_string(),
            context: Context::new(),
        }],
        context: Context::new(),
        copy_output_directory_path: PathBuf::from("output"),
        copy_input_directory_path: PathBuf::from("files"),
        copy_paths: vec![PathBuf::from("robots.txt")],
    }
}

fn style_cache() -> AssetCacheManifestV1 {
    let mut map = HashMap::new();
    map.insert(
        "style".to_string(),
        AssetCacheEntry {
            name: "style".to_string(),
            data: AssetData {
                output_base_path: Some(PathBuf::from("css")),
                extension: "css".to_string(),
                source: AssetSource::Filtered(AssetFiltered {
                    filter_name: "SCSS2CSS".to_string(),
                    input_names: vec!["style_source".to_string()],
                    options: HashMap::new(),
                }),
            },
            path: PathBuf::from("css/style-abcd1234.css"),
            file_hash: None,
        },
    );
    AssetCacheManifestV1 { map }
}

#[test]
fn rendered_page_holds_the_resolved_asset_url() {
    let manifest = one_page_site();
    let mut engine = tera::Tera::default();
    engine.autoescape_on(Vec::new());
    engine
        .add_raw_template("index.html", "<link href=\"{{ get_asset_url(name=\"style\") }}\">")
        .unwrap();
    let mut rendered: Vec<(PathBuf, String)> = Vec::new();
    let mut stage = manifest.first_stage();
    while let Some(step) = manifest.step(stage) {
        match step {
            BuildStep::InitTemplates { static_base_url, .. } => {
                let function =
                    get_tera_function_get_asset_url(style_cache(), static_base_url.clone());
                engine.register_function(
                    FUNCTION_NAME,
                    move |given: &HashMap<String, tera::Value>| -> tera::Result<tera::Value> {
                        let mut arguments = Arguments::new();
                        for (name, value) in given {
                            arguments.insert(
                                name.clone(),
                                match value.as_str() {
                                    Some(text) => ArgumentValue::String(text.to_string()),
                                    None => ArgumentValue::Other,
                                },
                            );
                        }
                        match function.call(&arguments) {
                            Ok(url) => Ok(tera::Value::String(url)),
                            Err(err) => Err(tera::Error::msg(err.message())),
                        }
                    },
                );
            },
            BuildStep::RenderTemplate {
                template_name,
                context,
                output_directory_path,
                output_name,
            } => {
                let mut values = tera::Context::new();
                for (key, value) in context.entries() {
                    values.insert(key.as_str(), value);
                }
                rendered.push((
                    output_directory_path.join(output_name),
                    engine.render(template_name, &values).unwrap(),
                ));
            },
            _ => {},
        }
        stage = manifest.next_stage(stage, true);
    }
    assert_eq!(stage, BuildStage::Finished);
    assert_eq!(rendered.len(), 1);
    assert_eq!(rendered[0].0, PathBuf::from("output/index.html"));
    assert!(rendered[0].1.contains("/static/css/style-abcd1234.css"));
    assert_eq!(rendered[0].1, "<link href=\"/static/css/style-abcd1234.css\">");
}

#[test]
fn template_errors_carry_the_message_of_the_function() {
    let mut engine = tera::Tera::default();
    engine.add_raw_template("missing", "{{ get_asset_url(name=\"nope\") }}").unwrap();
    engine.add_raw_template("number", "{{ get_asset_url(name=1) }}").unwrap();
    engine.add_raw_template("none", "{{ get_asset_url() }}").unwrap();
    let function = get_tera_function_get_asset_url(style_cache(), "/static/".to_string());
    engine.register_function(
        FUNCTION_NAME,
        move |given: &HashMap<String, tera::Value>| -> tera::Result<tera::Value> {
            let mut arguments = Arguments::new();
            for (name, value) in given {
                arguments.insert(
                    name.clone(),
                    match value.as_str() {
                        Some(text) => ArgumentValue::String(text.to_string()),
                        None => ArgumentValue::Other,
                    },
                );
            }
            match function.call(&arguments) {
                Ok(url) => Ok(tera::Value::String(url)),
                Err(err) => Err(tera::Error::msg(err.message())),
            }
        },
    );
    let values = tera::Context::new();
    let shown = format!("{:?}", engine.render("missing", &values).unwrap_err());
    assert!(shown.contains("Asset nope not found"));
    let shown = format!("{:?}", engine.render("number", &values).unwrap_err());
    assert!(shown.contains("Parameter 'name' should be string"));
    let shown = format!("{:?}", engine.render("none", &values).unwrap_err());
    assert!(shown.contains("Parameter 'name' is required"));
}

#[test]
fn a_failed_asset_step_leaves_pages_and_files_untouched() {
    let manifest = one_page_site();
    let filter = AssetFilterRunExecutable {};
    let mut options = FilterOptions::new();
    options.insert(
        "executableName".to_string(),
        FilterOption::String("no-such-program-anywhere".to_string()),
    );
    let invocation = filter
        .invocation(&["internal/style.scss".to_string()], "internal/style.css", &options)
        .unwrap();
    assert_eq!(invocation.executable_name, "no-such-program-anywhere");

    let mut taken: Vec<BuildStage> = Vec::new();
    let mut stage = manifest.first_stage();
    while manifest.step(stage).is_some() {
        taken.push(stage);
        let succeeded = stage != BuildStage::PackAssets;
        stage = manifest.next_stage(stage, succeeded);
    }
    assert_eq!(stage, BuildStage::Failed);
    assert_eq!(taken, vec![BuildStage::PackAssets]);
}
