//! The order of a build.
//!
//! A build packs the assets, loads the cache manifest that the packer left,
//! sets up the template engine, renders the pages in the order in which the
//! manifest lists them, and copies the remaining files in their order. The
//! first step that fails ends the build; what earlier steps wrote stays.
//!
//! The functions here say what the step of a stage is and which stage
//! follows. The caller performs each step and reports whether it succeeded.

use std::path::PathBuf;
use vstd::prelude::*;

use crate::context::Context;
use crate::manifest::StaticWebsiteManifest;

verus! {

/// Where a build stands.
#[derive(Clone, Copy, Debug, PartialEq, Eq, Structural)]
pub enum BuildStage {
    PackAssets,
    LoadCacheManifest,
    InitTemplates,
    /// Rendering the page at this place among the manifest's templates.
    RenderTemplate(usize),
    /// Copying the file at this place among the manifest's copy paths.
    CopyFile(usize),
    /// Every step succeeded.
    Finished,
    /// A step failed. No further step is taken.
    Failed,
}

/// What is to be done at one stage of a build.
#[derive(Debug)]
pub enum BuildStep<'a> {
    /// Run the asset packer, with the registered filters, over the declared
    /// assets.
    PackAssets {
        asset_manifest_path: &'a PathBuf,
        asset_cache_manifest_path: &'a PathBuf,
        source_directory_path: &'a PathBuf,
        internal_directory_path: &'a PathBuf,
        target_directory_path: &'a PathBuf,
    },
    /// Load the cache manifest that the packer wrote.
    LoadCacheManifest { asset_cache_manifest_path: &'a PathBuf },
    /// Set up the template engine on the template directory, and make the
    /// function that resolves asset names, over the loaded cache manifest
    /// and this base URL, known to it.
    InitTemplates { tera_input_directory: &'a String, static_base_url: &'a String },
    /// Render one template with `context` on top of the caller's own
    /// context, and write the result to `output_name` under
    /// `output_directory_path`.
    RenderTemplate {
        template_name: &'a String,
        context: Context,
        output_directory_path: &'a PathBuf,
        output_name: &'a String,
    },
    /// Copy the file `path` under `input_directory_path` to `path` under
    /// `output_directory_path`.
    CopyFile {
        input_directory_path: &'a PathBuf,
        output_directory_path: &'a PathBuf,
        path: &'a PathBuf,
    },
}

/// The mathematical content of a [`BuildStep`].
pub enum BuildStepView {
    PackAssets {
        asset_manifest_path: PathBuf,
        asset_cache_manifest_path: PathBuf,
        source_directory_path: PathBuf,
        internal_directory_path: PathBuf,
        target_directory_path: PathBuf,
    },
    LoadCacheManifest { asset_cache_manifest_path: PathBuf },
    InitTemplates { tera_input_directory: Seq<char>, static_base_url: Seq<char> },
    RenderTemplate {
        template_name: Seq<char>,
        context: Map<Seq<char>, Seq<char>>,
        output_directory_path: PathBuf,
        output_name: Seq<char>,
    },
    CopyFile { input_directory_path: PathBuf, output_directory_path: PathBuf, path: PathBuf },
}

impl<'a> View for BuildStep<'a> {
    type V = BuildStepView;

    open spec fn view(&self) -> BuildStepView {
        match self {
            BuildStep::PackAssets {
                asset_manifest_path,
                asset_cache_manifest_path,
                source_directory_path,
                internal_directory_path,
                target_directory_path,
            } => BuildStepView::PackAssets {
                asset_manifest_path: **asset_manifest_path,
                asset_cache_manifest_path: **asset_cache_manifest_path,
                source_directory_path: **source_directory_path,
                internal_directory_path: **internal_directory_path,
                target_directory_path: **target_directory_path,
            },
            BuildStep::LoadCacheManifest { asset_cache_manifest_path } => {
                BuildStepView::LoadCacheManifest {
                    asset_cache_manifest_path: **asset_cache_manifest_path,
                }
            },
            BuildStep::InitTemplates { tera_input_directory, static_base_url } => {
                BuildStepView::InitTemplates {
                    tera_input_directory: tera_input_directory@,
                    static_base_url: static_base_url@,
                }
            },
            BuildStep::RenderTemplate {
                template_name,
                context,
                output_directory_path,
                output_name,
            } => BuildStepView::RenderTemplate {
                template_name: template_name@,
                context: context@,
                output_directory_path: **output_directory_path,
                output_name: output_name@,
            },
            BuildStep::CopyFile { input_directory_path, output_directory_path, path } => {
                BuildStepView::CopyFile {
                    input_directory_path: **input_directory_path,
                    output_directory_path: **output_directory_path,
                    path: **path,
                }
            },
        }
    }
}

impl StaticWebsiteManifest {
    /// The stage at which the page at `index` is rendered; where there is
    /// no such page, the stage at which the first file is copied.
    pub open spec fn stage_from_template(&self, index: int) -> BuildStage {
        if 0 <= index < self.tera_templates@.len() {
            BuildStage::RenderTemplate(index as usize)
        } else {
            self.stage_from_copy(0)
        }
    }

    /// The stage at which the file at `index` is copied; where there is no
    /// such file, the end of the build.
    pub open spec fn stage_from_copy(&self, index: int) -> BuildStage {
        if 0 <= index < self.copy_paths@.len() {
            BuildStage::CopyFile(index as usize)
        } else {
            BuildStage::Finished
        }
    }

    /// The stage that follows `stage`, given whether the step of `stage`
    /// succeeded.
    pub open spec fn spec_next_stage(&self, stage: BuildStage, succeeded: bool) -> BuildStage {
        match stage {
            BuildStage::Finished => BuildStage::Finished,
            BuildStage::Failed => BuildStage::Failed,
            BuildStage::PackAssets => if succeeded {
                BuildStage::LoadCacheManifest
            } else {
                BuildStage::Failed
            },
            BuildStage::LoadCacheManifest => if succeeded {
                BuildStage::InitTemplates
            } else {
                BuildStage::Failed
            },
            BuildStage::InitTemplates => if succeeded {
                self.stage_from_template(0)
            } else {
                BuildStage::Failed
            },
            BuildStage::RenderTemplate(index) => if succeeded {
                self.stage_from_template(index + 1)
            } else {
                BuildStage::Failed
            },
            BuildStage::CopyFile(index) => if succeeded {
                self.stage_from_copy(index + 1)
            } else {
                BuildStage::Failed
            },
        }
    }

    /// What is to be done at `stage`; nothing once the build has ended, and
    /// nothing at a stage that names a page or a file which the manifest
    /// does not have.
    pub open spec fn spec_step(&self, stage: BuildStage) -> Option<BuildStepView> {
        match stage {
            BuildStage::PackAssets => Some(
                BuildStepView::PackAssets {
                    asset_manifest_path: self.asset_manifest_path,
                    asset_cache_manifest_path: self.asset_cache_manifest_path,
                    source_directory_path: self.asset_directory_path,
                    internal_directory_path: self.internal_directory_path,
                    target_directory_path: self.static_directory_path,
                },
            ),
            BuildStage::LoadCacheManifest => Some(
                BuildStepView::LoadCacheManifest {
                    asset_cache_manifest_path: self.asset_cache_manifest_path,
                },
            ),
            BuildStage::InitTemplates => Some(
                BuildStepView::InitTemplates {
                    tera_input_directory: self.tera_input_directory@,
                    static_base_url: self.static_base_url@,
                },
            ),
            BuildStage::RenderTemplate(index) => if index < self.tera_templates@.len() {
                Some(
                    BuildStepView::RenderTemplate {
                        template_name: self.tera_templates@[index as int].template_name@,
                        context: self.context@.union_prefer_right(
                            self.tera_templates@[index as int].context@,
                        ),
                        output_directory_path: self.html_output_directory_path,
                        output_name: self.tera_templates@[index as int].output_name@,
                    },
                )
            } else {
                None
            },
            BuildStage::CopyFile(index) => if index < self.copy_paths@.len() {
                Some(
                    BuildStepView::CopyFile {
                        input_directory_path: self.copy_input_directory_path,
                        output_directory_path: self.copy_output_directory_path,
                        path: self.copy_paths@[index as int],
                    },
                )
            } else {
                None
            },
            BuildStage::Finished => None,
            BuildStage::Failed => None,
        }
    }

    /// The stage at which every build starts.
    pub fn first_stage(&self) -> (r: BuildStage)
        ensures
            r == BuildStage::PackAssets,
    {
        BuildStage::PackAssets
    }

    fn from_template(&self, index: usize) -> (r: BuildStage)
        ensures
            r == self.stage_from_template(index as int),
    {
        if index < self.tera_templates.len() {
            BuildStage::RenderTemplate(index)
        } else {
            self.from_copy(0)
        }
    }

    fn from_copy(&self, index: usize) -> (r: BuildStage)
        ensures
            r == self.stage_from_copy(index as int),
    {
        if index < self.copy_paths.len() {
            BuildStage::CopyFile(index)
        } else {
            BuildStage::Finished
        }
    }

    /// The stage that follows `stage`, given whether the step of `stage`
    /// succeeded. A failure ends the build, and an ended build stays as it
    /// ended.
    pub fn next_stage(&self, stage: BuildStage, succeeded: bool) -> (r: BuildStage)
        ensures
            r == self.spec_next_stage(stage, succeeded),
            !succeeded && stage != BuildStage::Finished ==> r == BuildStage::Failed,
            stage == BuildStage::Finished ==> r == BuildStage::Finished,
            stage == BuildStage::Failed ==> r == BuildStage::Failed,
            r != BuildStage::Finished && r != BuildStage::Failed ==> self.spec_step(r) is Some,
    {
        match stage {
            BuildStage::Finished => BuildStage::Finished,
            BuildStage::Failed => BuildStage::Failed,
            _ => if !succeeded {
                BuildStage::Failed
            } else {
                match stage {
                    BuildStage::PackAssets => BuildStage::LoadCacheManifest,
                    BuildStage::LoadCacheManifest => BuildStage::InitTemplates,
                    BuildStage::InitTemplates => self.from_template(0),
                    BuildStage::RenderTemplate(index) => if index < self.tera_templates.len() {
                        self.from_template(index + 1)
                    } else {
                        self.from_copy(0)
                    },
                    BuildStage::CopyFile(index) => if index < self.copy_paths.len() {
                        self.from_copy(index + 1)
                    } else {
                        BuildStage::Finished
                    },
                    BuildStage::Finished => BuildStage::Finished,
                    BuildStage::Failed => BuildStage::Failed,
                }
            },
        }
    }

    /// What is to be done at `stage`. A page is rendered with the context
    /// of the site and, on top of it, the page's own: a key of both has the
    /// page's value.
    pub fn step(&self, stage: BuildStage) -> (r: Option<BuildStep<'_>>)
        ensures
            match r {
                Some(step) => self.spec_step(stage) matches Some(v) && v == step@,
                None => self.spec_step(stage) is None,
            },
    {
        match stage {
            BuildStage::PackAssets => Some(
                BuildStep::PackAssets {
                    asset_manifest_path: &self.asset_manifest_path,
                    asset_cache_manifest_path: &self.asset_cache_manifest_path,
                    source_directory_path: &self.asset_directory_path,
                    internal_directory_path: &self.internal_directory_path,
                    target_directory_path: &self.static_directory_path,
                },
            ),
            BuildStage::LoadCacheManifest => Some(
                BuildStep::LoadCacheManifest {
                    asset_cache_manifest_path: &self.asset_cache_manifest_path,
                },
            ),
            BuildStage::InitTemplates => Some(
                BuildStep::InitTemplates {
                    tera_input_directory: &self.tera_input_directory,
                    static_base_url: &self.static_base_url,
                },
            ),
            BuildStage::RenderTemplate(index) => if index < self.tera_templates.len() {
                let entry = &self.tera_templates[index];
                Some(
                    BuildStep::RenderTemplate {
                        template_name: &entry.template_name,
                        context: self.context.merged(&entry.context),
                        output_directory_path: &self.html_output_directory_path,
                        output_name: &entry.output_name,
                    },
                )
            } else {
                None
            },
            BuildStage::CopyFile(index) => if index < self.copy_paths.len() {
                Some(
                    BuildStep::CopyFile {
                        input_directory_path: &self.copy_input_directory_path,
                        output_directory_path: &self.copy_output_directory_path,
                        path: &self.copy_paths[index],
                    },
                )
            } else {
                None
            },
            BuildStage::Finished => None,
            BuildStage::Failed => None,
        }
    }

    /// The stage of a build after `steps` steps that all succeeded.
    pub open spec fn stage_after(&self, steps: nat) -> BuildStage
        decreases steps,
    {
        if steps == 0 {
            BuildStage::PackAssets
        } else {
            self.spec_next_stage(self.stage_after((steps - 1) as nat), true)
        }
    }

    /// A build whose steps all succeed packs the assets, loads the cache
    /// manifest, sets up the templates, renders every page in the
    /// manifest's order, copies every file in the manifest's order, and is
    /// then finished.
    pub proof fn lemma_order_of_a_build(&self, steps: nat)
        ensures
            self.stage_after(steps) == (if steps == 0 {
                BuildStage::PackAssets
            } else if steps == 1 {
                BuildStage::LoadCacheManifest
            } else if steps == 2 {
                BuildStage::InitTemplates
            } else if steps < 3 + self.tera_templates@.len() {
                BuildStage::RenderTemplate((steps - 3) as usize)
            } else if steps < 3 + self.tera_templates@.len() + self.copy_paths@.len() {
                BuildStage::CopyFile((steps - 3 - self.tera_templates@.len()) as usize)
            } else {
                BuildStage::Finished
            }),
        decreases steps,
    {
        assert(self.tera_templates@.len() == self.tera_templates.len());
        assert(self.copy_paths@.len() == self.copy_paths.len());
        if steps > 0 {
            self.lemma_order_of_a_build((steps - 1) as nat);
        }
    }
}

} // verus!
