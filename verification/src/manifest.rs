//! The declaration of a website: where its assets, templates and other
//! files are, and where the built site goes.

use vstd::prelude::*;

use crate::context::Context;

verus! {

#[verifier::external_type_specification]
#[verifier::external_body]
pub struct ExPathBuf(std::path::PathBuf);

/// One page to render.
#[derive(Debug)]
pub struct TemplateEntry {
    /// The template, by the name under which the template engine knows it.
    pub template_name: String,
    /// The file to write, relative to the directory for rendered pages.
    pub output_name: String,
    /// Context values of this page alone. They go on top of the values of
    /// the whole site.
    pub context: Context,
}

/// A website to build.
#[derive(Debug)]
pub struct StaticWebsiteManifest {
    /// The file that declares the assets.
    pub asset_manifest_path: std::path::PathBuf,
    /// The file in which the asset packer keeps, from one build to the
    /// next, where each asset went.
    pub asset_cache_manifest_path: std::path::PathBuf,
    /// The directory of the asset sources.
    pub asset_directory_path: std::path::PathBuf,
    /// The asset packer's own storage.
    pub internal_directory_path: std::path::PathBuf,
    /// The directory to which the public assets go.
    pub static_directory_path: std::path::PathBuf,
    /// What goes before an asset's path to make its URL.
    pub static_base_url: String,
    /// Where the template engine finds the templates.
    pub tera_input_directory: String,
    /// The directory for rendered pages.
    pub html_output_directory_path: std::path::PathBuf,
    /// The pages to render, in order.
    pub tera_templates: Vec<TemplateEntry>,
    /// Context values of the whole site.
    pub context: Context,
    /// The directory to which the files of `copy_paths` go.
    pub copy_output_directory_path: std::path::PathBuf,
    /// The directory from which the files of `copy_paths` come.
    pub copy_input_directory_path: std::path::PathBuf,
    /// The files to copy as they are, relative to both directories, in
    /// order.
    pub copy_paths: Vec<std::path::PathBuf>,
}

} // verus!
