//! The `generate-ci` command: from its options and what is known of the
//! project to the text of the workflow, and to where the text goes.

use std::convert::Infallible;
use vstd::prelude::*;
use crate::bridge::{BridgeModel, BridgeModelView};
use crate::jobs::{
    lemma_manifest_path_in_sdist_args, lemma_release_needs_emitted_jobs, platform_names,
    sdist_arg_list,
};
use crate::model::{job_names, JobView, StepView, ValueView, Workflow, WorkflowView};
use crate::path::{parent_dir, path_eq, path_parent, same_path};
use crate::platform::{resolve_platforms, resolved_platforms, Platform, Provider};
use crate::steps::{
    installs_python, lemma_manifest_path_in_build_args, lemma_python_installed_iff_needed,
    lemma_tests_iff_asked_for, lemma_tests_run_in_test_dir,
    lemma_zig_changes_linux_build_args_only, points_at_manifest, runs_tests, script_of,
    test_command, Settings, SettingsView,
};
use crate::text::{join, join_strings, push_str, push_string};

verus! {

/// Generate CI configuration.
#[derive(Debug, Clone, PartialEq, Eq)]
pub struct GenerateCI {
    /// CI provider.
    pub ci: Provider,
    /// Path to Cargo.toml.
    pub manifest_path: Option<String>,
    /// Output path; `-` stands for the standard output.
    pub output: String,
    /// Platform support.
    pub platforms: Vec<Platform>,
    /// Enable pytest.
    pub pytest: bool,
    /// Use zig to do cross compilation.
    pub zig: bool,
}

/// View of [`GenerateCI`].
pub struct GenerateCIView {
    pub ci: Provider,
    pub manifest_path: Option<Seq<char>>,
    pub output: Seq<char>,
    pub platforms: Seq<Platform>,
    pub pytest: bool,
    pub zig: bool,
}

impl DeepView for GenerateCI {
    type V = GenerateCIView;

    open spec fn deep_view(&self) -> GenerateCIView {
        GenerateCIView {
            ci: self.ci,
            manifest_path: self.manifest_path.deep_view(),
            output: self.output@,
            platforms: self.platforms@,
            pytest: self.pytest,
            zig: self.zig,
        }
    }
}

impl View for GenerateCI {
    type V = GenerateCIView;

    open spec fn view(&self) -> GenerateCIView {
        self.deep_view()
    }
}

/// How the tool was started: what the head of the document says of its
/// origin.
#[derive(Debug, Clone, PartialEq, Eq)]
pub struct Invocation {
    /// The version of the tool.
    pub version: String,
    /// The command line, which begins with the name of the program.
    pub args: Vec<String>,
}

/// View of an [`Invocation`].
pub struct InvocationView {
    pub version: Seq<char>,
    pub args: Seq<Seq<char>>,
}

impl DeepView for Invocation {
    type V = InvocationView;

    open spec fn deep_view(&self) -> InvocationView {
        InvocationView { version: self.version@, args: self.args.deep_view() }
    }
}

impl View for Invocation {
    type V = InvocationView;

    open spec fn view(&self) -> InvocationView {
        self.deep_view()
    }
}

/// Where the manifest of the project lies, as far as the workflow depends
/// on it.
#[derive(Debug, Clone, PartialEq, Eq)]
pub enum Manifest {
    /// It is `Cargo.toml` in the directory that the jobs run in.
    Default,
    /// It is another file.
    Custom {
        /// The path of the manifest.
        path: String,
        /// The directory that holds the manifest, if the path names one.
        parent: Option<String>,
    },
}

/// View of a [`Manifest`].
pub enum ManifestView {
    Default,
    Custom { path: Seq<char>, parent: Option<Seq<char>> },
}

impl DeepView for Manifest {
    type V = ManifestView;

    open spec fn deep_view(&self) -> ManifestView {
        match self {
            Manifest::Default => ManifestView::Default,
            Manifest::Custom { path, parent } => ManifestView::Custom {
                path: path@,
                parent: parent.deep_view(),
            },
        }
    }
}

impl View for Manifest {
    type V = ManifestView;

    open spec fn view(&self) -> ManifestView {
        self.deep_view()
    }
}

/// Where the text of the workflow goes.
#[derive(Debug, Clone, PartialEq, Eq)]
pub enum Destination {
    /// To the standard output.
    Stdout,
    /// Into the file at this path.
    File(String),
}

/// View of a [`Destination`].
pub enum DestinationView {
    Stdout,
    File(Seq<char>),
}

impl DeepView for Destination {
    type V = DestinationView;

    open spec fn deep_view(&self) -> DestinationView {
        match self {
            Destination::Stdout => DestinationView::Stdout,
            Destination::File(path) => DestinationView::File(path@),
        }
    }
}

impl View for Destination {
    type V = DestinationView;

    open spec fn view(&self) -> DestinationView {
        self.deep_view()
    }
}

/// A generated workflow, ready to be written.
#[derive(Debug, Clone, PartialEq, Eq)]
pub struct Output {
    /// Where to write to.
    pub destination: Destination,
    /// What to write.
    pub text: String,
}

impl InvocationView {
    /// The command line with the name of the tool in place of the program's
    /// path.
    pub open spec fn command(self) -> Seq<char> {
        join(
            if self.args.len() > 0 {
                self.args.update(0, "maturin"@)
            } else {
                self.args
            },
            " "@,
        )
    }
}

impl ManifestView {
    /// The path that the builds are pointed at: none for the default
    /// manifest, which they find by themselves.
    pub open spec fn path(self) -> Option<Seq<char>> {
        match self {
            ManifestView::Default => None,
            ManifestView::Custom { path, .. } => Some(path),
        }
    }

    /// The directory that the tests run in, where it is not the one that
    /// the jobs run in: the directory that holds a manifest other than the
    /// default one. Where the path of such a manifest names no directory,
    /// the tests run where the jobs run.
    pub open spec fn dir(self) -> Option<Seq<char>> {
        match self {
            ManifestView::Default => None,
            ManifestView::Custom { parent, .. } => parent,
        }
    }
}

impl GenerateCIView {
    /// The options of a run without arguments.
    pub open spec fn default() -> GenerateCIView {
        GenerateCIView {
            ci: Provider::GitHub,
            manifest_path: None,
            output: "-"@,
            platforms: Platform::spec_defaults(),
            pytest: false,
            zig: false,
        }
    }

    /// Where the manifest lies: at the path that was given, unless none was
    /// given or the path is the path `Cargo.toml`.
    pub open spec fn manifest(self) -> ManifestView {
        match self.manifest_path {
            Some(path) => if path_eq(path, "Cargo.toml"@) {
                ManifestView::Default
            } else {
                ManifestView::Custom { path, parent: path_parent(path) }
            },
            None => ManifestView::Default,
        }
    }

    /// The platforms that jobs are built for.
    pub open spec fn platforms_for(self, bridge: BridgeModelView) -> Seq<Platform> {
        resolved_platforms(self.platforms, bridge)
    }

    /// What the steps of the jobs depend on.
    pub open spec fn settings(
        self,
        project_name: Seq<char>,
        bridge: BridgeModelView,
        manifest: ManifestView,
    ) -> SettingsView {
        SettingsView {
            bridge,
            project_name,
            pytest: self.pytest,
            zig: self.zig,
            manifest_path: manifest.path(),
            test_dir: manifest.dir(),
        }
    }

    /// The workflow for GitHub Actions of a project whose manifest lies at
    /// `manifest`.
    pub open spec fn github_workflow(
        self,
        project_name: Seq<char>,
        bridge: BridgeModelView,
        sdist: bool,
        invocation: InvocationView,
        manifest: ManifestView,
    ) -> WorkflowView {
        WorkflowView {
            version: invocation.version,
            command: invocation.command(),
            jobs: self.settings(project_name, bridge, manifest).jobs(
                self.platforms_for(bridge),
                sdist,
            ),
        }
    }

    /// The text of the workflow for GitHub Actions.
    pub open spec fn github_text(
        self,
        project_name: Seq<char>,
        bridge: BridgeModelView,
        sdist: bool,
        invocation: InvocationView,
    ) -> Seq<char> {
        self.github_workflow(project_name, bridge, sdist, invocation, self.manifest()).render()
    }

    /// The text of the workflow for the provider that was asked for.
    pub open spec fn text(
        self,
        project_name: Seq<char>,
        bridge: BridgeModelView,
        sdist: bool,
        invocation: InvocationView,
    ) -> Seq<char> {
        match self.ci {
            Provider::GitHub => self.github_text(project_name, bridge, sdist, invocation),
        }
    }

    /// Where the text goes: to the standard output if the output path is
    /// the path `-`, else into the file at the output path.
    pub open spec fn destination(self) -> DestinationView {
        if path_eq(self.output, "-"@) {
            DestinationView::Stdout
        } else {
            DestinationView::File(self.output)
        }
    }
}

impl Invocation {
    /// The command line with the name of the tool in place of the program's
    /// path.
    pub fn command(&self) -> (r: String)
        ensures
            r@ == self@.command(),
    {
        let mut words: Vec<String> = Vec::new();
        let mut i: usize = 0;
        while i < self.args.len()
            invariant
                i <= self.args.len(),
                words.deep_view().len() == i,
                i > 0 ==> words.deep_view() =~= self.args.deep_view().take(i as int).update(
                    0,
                    "maturin"@,
                ),
            decreases self.args.len() - i,
        {
            if i == 0 {
                push_str(&mut words, "maturin");
            } else {
                push_string(&mut words, self.args[i].clone());
            }
            i += 1;
        }
        assert(self.args.deep_view().take(self.args.len() as int) == self.args.deep_view());
        assert(words.deep_view() =~= if self@.args.len() > 0 {
            self@.args.update(0, "maturin"@)
        } else {
            self@.args
        });
        join_strings(&words, " ")
    }
}

impl Default for GenerateCI {
    fn default() -> (r: Self)
        ensures
            r@ == GenerateCIView::default(),
    {
        GenerateCI {
            ci: Provider::GitHub,
            manifest_path: None,
            output: String::from_str("-"),
            platforms: Platform::defaults(),
            pytest: false,
            zig: false,
        }
    }
}

impl GenerateCI {
    /// Where the manifest lies.
    pub fn manifest(&self) -> (r: Manifest)
        ensures
            r@ == self@.manifest(),
    {
        match &self.manifest_path {
            Some(path) => if same_path(path.as_str(), "Cargo.toml") {
                Manifest::Default
            } else {
                Manifest::Custom { path: path.clone(), parent: parent_dir(path.as_str()) }
            },
            None => Manifest::Default,
        }
    }

    /// Where the text goes.
    pub fn destination(&self) -> (r: Destination)
        ensures
            r@ == self@.destination(),
    {
        if same_path(self.output.as_str(), "-") {
            Destination::Stdout
        } else {
            Destination::File(self.output.clone())
        }
    }

    /// What the steps of the jobs depend on.
    pub fn settings<'a>(
        &self,
        project_name: &'a str,
        bridge_model: &'a BridgeModel,
        manifest: Manifest,
    ) -> (r: Settings<'a>)
        ensures
            r@ == self@.settings(project_name@, bridge_model@, manifest@),
    {
        let (manifest_path, test_dir) = match manifest {
            Manifest::Default => (None, None),
            Manifest::Custom { path, parent } => (Some(path), parent),
        };
        Settings {
            bridge: bridge_model,
            project_name,
            pytest: self.pytest,
            zig: self.zig,
            manifest_path,
            test_dir,
        }
    }

    /// Builds the workflow for GitHub Actions of a project whose manifest
    /// lies at `manifest`.
    pub fn github_workflow(
        &self,
        project_name: &str,
        bridge_model: &BridgeModel,
        sdist: bool,
        invocation: &Invocation,
        manifest: Manifest,
    ) -> (r: Workflow)
        ensures
            r@ == self@.github_workflow(
                project_name@,
                bridge_model@,
                sdist,
                invocation@,
                manifest@,
            ),
    {
        let settings = self.settings(project_name, bridge_model, manifest);
        let platforms = resolve_platforms(&self.platforms, bridge_model);
        Workflow {
            version: invocation.version.clone(),
            command: invocation.command(),
            jobs: settings.jobs(&platforms, sdist),
        }
    }

    /// Generates the text of the workflow for GitHub Actions.
    ///
    /// Generation has no failure of its own: the result is `Ok` on every
    /// input.
    pub fn generate_github(
        &self,
        project_name: &str,
        bridge_model: &BridgeModel,
        sdist: bool,
        invocation: &Invocation,
    ) -> (r: Result<String, Infallible>)
        ensures
            r matches Ok(text) && text@ == self@.github_text(
                project_name@,
                bridge_model@,
                sdist,
                invocation@,
            ),
    {
        let manifest = self.manifest();
        Ok(self.github_workflow(project_name, bridge_model, sdist, invocation, manifest).render())
    }

    /// Generates the text of the workflow for the provider that was asked
    /// for.
    ///
    /// Generation has no failure of its own: the result is `Ok` on every
    /// input.
    pub fn generate(
        &self,
        project_name: &str,
        bridge_model: &BridgeModel,
        sdist: bool,
        invocation: &Invocation,
    ) -> (r: Result<String, Infallible>)
        ensures
            r matches Ok(text) && text@ == self@.text(
                project_name@,
                bridge_model@,
                sdist,
                invocation@,
            ),
    {
        match self.ci {
            Provider::GitHub => self.generate_github(project_name, bridge_model, sdist, invocation),
        }
    }

    /// Generates the workflow and says where to write it.
    ///
    /// The result is `Ok` on every input: what can fail is the write, which
    /// is left to the caller.
    pub fn execute(
        &self,
        project_name: &str,
        bridge_model: &BridgeModel,
        sdist: bool,
        invocation: &Invocation,
    ) -> (r: Result<Output, Infallible>)
        ensures
            r matches Ok(output) && output.text@ == self@.text(
                project_name@,
                bridge_model@,
                sdist,
                invocation@,
            ) && output.destination@ == self@.destination(),
    {
        match self.generate(project_name, bridge_model, sdist, invocation) {
            Ok(text) => Ok(Output { destination: self.destination(), text }),
            Err(never) => Err(never),
        }
    }
}

/// Generation is a function of its inputs: two runs on options and on a
/// bridge model that hold the same values, for the same project and the
/// same invocation, give the same text, letter for letter.
pub proof fn lemma_same_inputs_same_text(
    config: GenerateCI,
    config_again: GenerateCI,
    bridge: BridgeModel,
    bridge_again: BridgeModel,
    project_name: Seq<char>,
    sdist: bool,
    invocation: InvocationView,
    first: String,
    second: String,
)
    requires
        config@ == config_again@,
        bridge@ == bridge_again@,
        first@ == config@.text(project_name, bridge@, sdist, invocation),
        second@ == config_again@.text(project_name, bridge_again@, sdist, invocation),
    ensures
        first@ == second@,
{
}

/// The workflow that is generated holds one job for each resolved platform,
/// in canonical order, then the job of the source distribution exactly if
/// there is one, then the release, which waits for exactly the jobs before
/// it, in their order. A job of a platform installs Python exactly if tests
/// are asked for or the bridge model takes Python, and runs tests exactly
/// if they are asked for. The release handles wheels for Emscripten exactly
/// if a job builds them.
pub proof fn lemma_generated_workflow(
    config: GenerateCIView,
    project_name: Seq<char>,
    bridge: BridgeModelView,
    sdist: bool,
    invocation: InvocationView,
    manifest: ManifestView,
)
    ensures
        ({
            let jobs = config.github_workflow(
                project_name,
                bridge,
                sdist,
                invocation,
                manifest,
            ).jobs;
            let platforms = config.platforms_for(bridge);
            &&& jobs.len() == platforms.len() + (if sdist {
                2int
            } else {
                1int
            })
            &&& job_names(jobs.drop_last()) == platform_names(platforms) + (if sdist {
                seq!["sdist"@]
            } else {
                Seq::empty()
            })
            &&& sdist ==> jobs[platforms.len() as int] == JobView::sdist(manifest.path())
            &&& jobs.last().name == "release"@
            &&& jobs.last().needs == Some(job_names(jobs.drop_last()))
            &&& jobs.last().steps == JobView::release_steps(
                platforms.contains(Platform::Emscripten),
            )
            &&& forall|i: int|
                #![trigger jobs[i]]
                0 <= i < platforms.len() ==> {
                    &&& jobs[i].name == platforms[i].name()
                    &&& ((exists|k: int|
                        0 <= k < jobs[i].steps.len() && installs_python(#[trigger] jobs[i].steps[k]))
                        <==> config.pytest || bridge.requires_python())
                    &&& ((exists|k: int|
                        0 <= k < jobs[i].steps.len() && runs_tests(#[trigger] jobs[i].steps[k]))
                        <==> config.pytest)
                }
        }),
{
    let s = config.settings(project_name, bridge, manifest);
    let platforms = config.platforms_for(bridge);
    let jobs = s.jobs(platforms, sdist);
    lemma_release_needs_emitted_jobs(s, platforms, sdist);
    assert forall|i: int| #![trigger jobs[i]] 0 <= i < platforms.len() implies {
        &&& jobs[i].name == platforms[i].name()
        &&& ((exists|k: int|
            0 <= k < jobs[i].steps.len() && installs_python(#[trigger] jobs[i].steps[k]))
            <==> config.pytest || bridge.requires_python())
        &&& ((exists|k: int|
            0 <= k < jobs[i].steps.len() && runs_tests(#[trigger] jobs[i].steps[k]))
            <==> config.pytest)
    } by {
        let p = platforms[i];
        let steps = jobs[i].steps;
        assert(jobs[i] == s.platform_job(p));
        assert(steps == s.steps(p));
        lemma_python_installed_iff_needed(s, p);
        lemma_tests_iff_asked_for(s, p);
        if s.sets_up_python() {
            assert(installs_python(steps[1]));
        }
        if config.pytest {
            assert(runs_tests(steps[steps.len() - 1]));
        }
    }
}

/// A manifest path other than the default reaches every job as it stands:
/// each build of wheels and the build of the source distribution get it
/// behind the switch for it. Every script that runs tests ends with the
/// test run, which first changes into the directory of the manifest where
/// the path names one, and runs where the job runs where it names none.
pub proof fn lemma_manifest_path_propagates(
    config: GenerateCIView,
    project_name: Seq<char>,
    bridge: BridgeModelView,
    sdist: bool,
    path: Seq<char>,
    parent: Option<Seq<char>>,
)
    ensures
        ({
            let s = config.settings(project_name, bridge, ManifestView::Custom { path, parent });
            let platforms = config.platforms_for(bridge);
            let jobs = s.jobs(platforms, sdist);
            &&& forall|i: int|
                #![trigger jobs[i]]
                0 <= i < platforms.len() ==> {
                    let build = jobs[i].steps[s.build_index(platforms[i])];
                    &&& build == s.build_step(platforms[i])
                    &&& build.params[1].key == "args"@
                    &&& build.params[1].value == ValueView::Scalar(
                        join(s.build_arg_list(platforms[i]), " "@),
                    )
                    &&& points_at_manifest(s.build_arg_list(platforms[i]), path)
                }
            &&& sdist ==> {
                let build = jobs[platforms.len() as int].steps[1];
                &&& build == StepView::build_sdist(Some(path))
                &&& build.params[1].key == "args"@
                &&& build.params[1].value == ValueView::Scalar(
                    join(sdist_arg_list(Some(path)), " "@),
                )
                &&& points_at_manifest(sdist_arg_list(Some(path)), path)
            }
            &&& forall|i: int|
                #![trigger jobs[i]]
                0 <= i < platforms.len() ==> {
                    let first = s.build_index(platforms[i]) + 2;
                    &&& jobs[i].steps.subrange(first, jobs[i].steps.len() as int) == s.test_steps(
                        platforms[i],
                    )
                    &&& forall|k: int|
                        #![trigger s.test_steps(platforms[i])[k]]
                        0 <= k < s.test_steps(platforms[i]).len() ==> match script_of(
                            s.test_steps(platforms[i])[k],
                        ) {
                            Some(lines) => lines.len() > 0 && lines.last() == (match parent {
                                Some(dir) => "cd "@ + dir + " && "@ + test_command(platforms[i]),
                                None => test_command(platforms[i]),
                            }),
                            None => s.test_steps(platforms[i])[k] == StepView::setup_node(),
                        }
                }
        }),
{
    let s = config.settings(project_name, bridge, ManifestView::Custom { path, parent });
    let platforms = config.platforms_for(bridge);
    let jobs = s.jobs(platforms, sdist);
    lemma_release_needs_emitted_jobs(s, platforms, sdist);
    lemma_manifest_path_in_sdist_args(path);
    assert forall|i: int| #![trigger jobs[i]] 0 <= i < platforms.len() implies {
        let build = jobs[i].steps[s.build_index(platforms[i])];
        let first = s.build_index(platforms[i]) + 2;
        &&& build == s.build_step(platforms[i])
        &&& build.params[1].key == "args"@
        &&& build.params[1].value == ValueView::Scalar(join(s.build_arg_list(platforms[i]), " "@))
        &&& points_at_manifest(s.build_arg_list(platforms[i]), path)
        &&& jobs[i].steps.subrange(first, jobs[i].steps.len() as int) == s.test_steps(platforms[i])
        &&& forall|k: int|
            #![trigger s.test_steps(platforms[i])[k]]
            0 <= k < s.test_steps(platforms[i]).len() ==> match script_of(
                s.test_steps(platforms[i])[k],
            ) {
                Some(lines) => lines.len() > 0 && lines.last() == (match parent {
                    Some(dir) => "cd "@ + dir + " && "@ + test_command(platforms[i]),
                    None => test_command(platforms[i]),
                }),
                None => s.test_steps(platforms[i])[k] == StepView::setup_node(),
            }
    } by {
        let p = platforms[i];
        assert(jobs[i] == s.platform_job(p));
        lemma_zig_changes_linux_build_args_only(s, s, p);
        lemma_manifest_path_in_build_args(s, p, path);
        lemma_tests_iff_asked_for(s, p);
        assert(s.steps(p).subrange(s.build_index(p) + 2, s.steps(p).len() as int) =~= s.test_steps(
            p,
        ));
        lemma_tests_run_in_test_dir(s, p);
    }
}

/// The manifest of a project lies where the options say, and its directory
/// is the parent of that path: so unless the path that was given is the path
/// `Cargo.toml`, it is this path that reaches the jobs.
pub proof fn lemma_manifest_of_options(config: GenerateCIView, path: Seq<char>)
    requires
        config.manifest_path == Some(path),
        !path_eq(path, "Cargo.toml"@),
    ensures
        config.manifest() == (ManifestView::Custom { path, parent: path_parent(path) }),
{
}

} // verus!
