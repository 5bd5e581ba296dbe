//! The steps of the job that builds the wheels for one platform.

use vstd::prelude::*;
use crate::bridge::{BridgeModel, BridgeModelView};
use crate::model::{lemma_push_deep_view, Step, StepView, ValueView};
use crate::platform::Platform;
use crate::text::{join, join_strings, push_str, push_string};

verus! {

/// What the steps of a job depend on besides its platform.
pub struct Settings<'a> {
    /// How the artifact is bound to Python.
    pub bridge: &'a BridgeModel,
    /// The name under which the built wheel is installed.
    pub project_name: &'a str,
    /// Run the tests of the project after the build.
    pub pytest: bool,
    /// Cross compile with zig.
    pub zig: bool,
    /// The path of the manifest, where it is not the default one.
    pub manifest_path: Option<String>,
    /// The directory that the tests run in; `None` where they run in the
    /// directory that the job runs in.
    pub test_dir: Option<String>,
}

/// View of [`Settings`].
pub struct SettingsView {
    pub bridge: BridgeModelView,
    pub project_name: Seq<char>,
    pub pytest: bool,
    pub zig: bool,
    pub manifest_path: Option<Seq<char>>,
    pub test_dir: Option<Seq<char>>,
}

impl<'a> DeepView for Settings<'a> {
    type V = SettingsView;

    open spec fn deep_view(&self) -> SettingsView {
        SettingsView {
            bridge: self.bridge@,
            project_name: self.project_name@,
            pytest: self.pytest,
            zig: self.zig,
            manifest_path: self.manifest_path.deep_view(),
            test_dir: self.test_dir.deep_view(),
        }
    }
}

impl<'a> View for Settings<'a> {
    type V = SettingsView;

    open spec fn view(&self) -> SettingsView {
        self.deep_view()
    }
}

impl StepView {
    /// Checks the sources out.
    pub open spec fn checkout() -> StepView {
        StepView::action("actions/checkout@v3"@)
    }

    /// Installs Python; on Windows, for the architecture of the build.
    pub open spec fn setup_python(platform: Platform) -> StepView {
        let step = StepView::action("actions/setup-python@v4"@).with("python-version"@, "'3.10'"@);
        if platform == Platform::Windows {
            step.with("architecture"@, "${{ matrix.target }}"@)
        } else {
            step
        }
    }

    /// Installs the build helper of pyodide.
    pub open spec fn install_pyodide_build() -> StepView {
        StepView::script("pip install pyodide-build"@)
    }

    /// Puts the Emscripten version that pyodide asks for into the
    /// environment.
    pub open spec fn export_emscripten_version() -> StepView {
        StepView::script(
            "echo EMSCRIPTEN_VERSION=$(pyodide config get emscripten_version) >> $GITHUB_ENV"@,
        ).in_shell("bash"@)
    }

    /// Installs Emscripten in the version found in the environment.
    pub open spec fn setup_emsdk() -> StepView {
        StepView::action("mymindstorm/setup-emsdk@v12"@).with(
            "version"@,
            "${{ env.EMSCRIPTEN_VERSION }}"@,
        ).with("actions-cache-folder"@, "emsdk-cache"@)
    }

    /// Uploads the directory `dist` as the artifact `artifact`.
    pub open spec fn upload(title: Seq<char>, artifact: Seq<char>) -> StepView {
        StepView::action("actions/upload-artifact@v3"@).named(title).with("name"@, artifact).with(
            "path"@,
            "dist"@,
        )
    }

    /// Installs node, which runs the tests of an Emscripten build.
    pub open spec fn setup_node() -> StepView {
        StepView::action("actions/setup-node@v3"@).with("node-version"@, "'18'"@)
    }
}

impl Step {
    /// Checks the sources out.
    pub fn checkout() -> (r: Step)
        ensures
            r@ == StepView::checkout(),
    {
        Step::action("actions/checkout@v3")
    }

    /// Installs Python; on Windows, for the architecture of the build.
    pub fn setup_python(platform: Platform) -> (r: Step)
        ensures
            r@ == StepView::setup_python(platform),
    {
        let step = Step::action("actions/setup-python@v4").with("python-version", "'3.10'");
        if platform == Platform::Windows {
            step.with("architecture", "${{ matrix.target }}")
        } else {
            step
        }
    }

    /// Installs the build helper of pyodide.
    pub fn install_pyodide_build() -> (r: Step)
        ensures
            r@ == StepView::install_pyodide_build(),
    {
        Step::script("pip install pyodide-build")
    }

    /// Puts the Emscripten version that pyodide asks for into the
    /// environment.
    pub fn export_emscripten_version() -> (r: Step)
        ensures
            r@ == StepView::export_emscripten_version(),
    {
        Step::script(
            "echo EMSCRIPTEN_VERSION=$(pyodide config get emscripten_version) >> $GITHUB_ENV",
        ).in_shell("bash")
    }

    /// Installs Emscripten in the version found in the environment.
    pub fn setup_emsdk() -> (r: Step)
        ensures
            r@ == StepView::setup_emsdk(),
    {
        Step::action("mymindstorm/setup-emsdk@v12").with(
            "version",
            "${{ env.EMSCRIPTEN_VERSION }}",
        ).with("actions-cache-folder", "emsdk-cache")
    }

    /// Uploads the directory `dist` as the artifact `artifact`.
    pub fn upload(title: &str, artifact: &str) -> (r: Step)
        ensures
            r@ == StepView::upload(title@, artifact@),
    {
        Step::action("actions/upload-artifact@v3").named(title).with("name", artifact).with(
            "path",
            "dist",
        )
    }

    /// Installs node, which runs the tests of an Emscripten build.
    pub fn setup_node() -> (r: Step)
        ensures
            r@ == StepView::setup_node(),
    {
        Step::action("actions/setup-node@v3").with("node-version", "'18'")
    }
}

/// The arguments that point maturin at a manifest other than the default.
pub open spec fn manifest_args(manifest_path: Option<Seq<char>>) -> Seq<Seq<char>> {
    match manifest_path {
        Some(path) => seq!["--manifest-path"@, path],
        None => Seq::empty(),
    }
}

/// The command that installs the wheel of `project` from `dist`.
pub open spec fn install_line(pip: Seq<char>, project: Seq<char>) -> Seq<char> {
    pip + " install "@ + project + " --find-links dist --force-reinstall"@
}

impl SettingsView {
    /// Python is installed before the build.
    pub open spec fn sets_up_python(self) -> bool {
        self.pytest || self.bridge.requires_python()
    }

    /// How maturin finds the interpreters to build for: not at all for the
    /// stable ABI and for a binary built without Python; the pinned version
    /// on Emscripten; by searching elsewhere.
    pub open spec fn interpreter_args(self, platform: Platform) -> Seq<Seq<char>> {
        if self.bridge.is_abi3() || (self.bridge.is_bin() && !self.sets_up_python()) {
            Seq::empty()
        } else if platform == Platform::Emscripten {
            seq!["-i"@, "3.10"@]
        } else {
            seq!["--find-interpreter"@]
        }
    }

    /// The switch to zig, which is for Linux alone.
    pub open spec fn zig_args(self, platform: Platform) -> Seq<Seq<char>> {
        if self.zig && platform == Platform::Linux {
            seq!["--zig"@]
        } else {
            Seq::empty()
        }
    }

    /// The arguments of the build, one after the other.
    pub open spec fn build_arg_list(self, platform: Platform) -> Seq<Seq<char>> {
        seq!["--release --out dist"@] + self.interpreter_args(platform) + manifest_args(
            self.manifest_path,
        ) + self.zig_args(platform)
    }

    /// The command line of the build.
    pub open spec fn build_args(self, platform: Platform) -> Seq<char> {
        join(self.build_arg_list(platform), " "@)
    }

    /// The step that builds the wheels.
    pub open spec fn build_step(self, platform: Platform) -> StepView {
        let step = StepView::action("PyO3/maturin-action@v1"@).named("Build wheels"@).with(
            "target"@,
            if platform == Platform::Emscripten {
                "wasm32-unknown-emscripten"@
            } else {
                "${{ matrix.target }}"@
            },
        ).with("args"@, self.build_args(platform));
        if platform == Platform::Linux {
            step.with("manylinux"@, "auto"@)
        } else if platform == Platform::Emscripten {
            step.with("rust-toolchain"@, "nightly"@)
        } else {
            step
        }
    }

    /// The step that uploads the wheels.
    pub open spec fn upload_step(self, platform: Platform) -> StepView {
        StepView::upload(
            "Upload wheels"@,
            if platform == Platform::Emscripten {
                "wasm-wheels"@
            } else {
                "wheels"@
            },
        )
    }

    /// The command `runner`, run in the directory of the tests.
    pub open spec fn test_line(self, runner: Seq<char>) -> Seq<char> {
        match self.test_dir {
            Some(dir) => "cd "@ + dir + " && "@ + runner,
            None => runner,
        }
    }

    /// The script that installs the wheel with `pip`, then pytest unless
    /// `with_pytest` is false, and runs `runner` on the tests.
    pub open spec fn test_script(self, pip: Seq<char>, with_pytest: bool, runner: Seq<char>) -> Seq<
        Seq<char>,
    > {
        seq!["set -e"@, install_line(pip, self.project_name)] + (if with_pytest {
            seq!["pip install pytest"@]
        } else {
            Seq::empty()
        }) + seq![self.test_line(runner)]
    }

    /// The tests on the machine of the job, for the x86_64 build of Linux.
    pub open spec fn host_test_step(self) -> StepView {
        StepView::script_block(self.test_script("pip"@, true, "pytest"@)).named("pytest"@).when(
            "${{ startsWith(matrix.target, 'x86_64') }}"@,
        ).in_shell("bash"@)
    }

    /// The tests under emulation, for the other architectures of Linux.
    pub open spec fn emulated_test_step(self) -> StepView {
        StepView::action("uraimo/run-on-arch-action@v2.5.0"@).named("pytest"@).when(
            "${{ !startsWith(matrix.target, 'x86') && matrix.target != 'ppc64' }}"@,
        ).with("arch"@, "${{ matrix.target }}"@).with("distro"@, "ubuntu22.04"@).with(
            "githubToken"@,
            "${{ github.token }}"@,
        ).with_block(
            "install"@,
            seq![
                "apt-get update"@,
                "apt-get install -y --no-install-recommends python3 python3-pip"@,
                "pip3 install -U pip pytest"@,
            ],
        ).with_block("run"@, self.test_script("pip3"@, false, "pytest"@))
    }

    /// The tests of a Windows or macOS build, on the machine of the job.
    pub open spec fn native_test_step(self) -> StepView {
        StepView::script_block(self.test_script("pip"@, true, "pytest"@)).named("pytest"@).when(
            "${{ !startsWith(matrix.target, 'aarch64') }}"@,
        ).in_shell("bash"@)
    }

    /// The script that tests an Emscripten build in a virtual environment
    /// of pyodide.
    pub open spec fn wasm_test_script(self) -> Seq<Seq<char>> {
        seq![
            "set -e"@,
            "pyodide venv .venv"@,
            "source .venv/bin/activate"@,
            install_line("pip"@, self.project_name),
            "pip install pytest"@,
            self.test_line("python -m pytest"@),
        ]
    }

    /// The tests of an Emscripten build.
    pub open spec fn wasm_test_step(self) -> StepView {
        StepView::script_block(self.wasm_test_script()).named("pytest"@)
    }

    /// The steps that run the tests; none unless tests are asked for.
    pub open spec fn test_steps(self, platform: Platform) -> Seq<StepView> {
        if !self.pytest {
            Seq::empty()
        } else if platform == Platform::Linux {
            seq![self.host_test_step(), self.emulated_test_step()]
        } else if platform == Platform::Emscripten {
            seq![StepView::setup_node(), self.wasm_test_step()]
        } else {
            seq![self.native_test_step()]
        }
    }

    /// The steps that install Python; none unless it is needed.
    pub open spec fn python_steps(self, platform: Platform) -> Seq<StepView> {
        if self.sets_up_python() {
            seq![StepView::setup_python(platform)]
        } else {
            Seq::empty()
        }
    }

    /// The steps that install the Emscripten toolchain; none on another
    /// platform.
    pub open spec fn toolchain_steps(self, platform: Platform) -> Seq<StepView> {
        if platform == Platform::Emscripten {
            seq![
                StepView::install_pyodide_build(),
                StepView::export_emscripten_version(),
                StepView::setup_emsdk(),
            ]
        } else {
            Seq::empty()
        }
    }

    /// The steps of the job for `platform`: check out, install Python and
    /// the toolchain as far as needed, build, upload, test.
    pub open spec fn steps(self, platform: Platform) -> Seq<StepView> {
        seq![StepView::checkout()] + self.python_steps(platform) + self.toolchain_steps(platform)
            + seq![self.build_step(platform), self.upload_step(platform)] + self.test_steps(
            platform,
        )
    }
}

/// Appends the arguments that point maturin at `manifest_path`.
pub(crate) fn push_manifest_args(args: &mut Vec<String>, manifest_path: &Option<String>)
    ensures
        final(args).deep_view() == old(args).deep_view() + manifest_args(manifest_path.deep_view()),
{
    match manifest_path {
        Some(path) => {
            push_str(args, "--manifest-path");
            push_str(args, path.as_str());
        },
        None => {},
    }
}

impl<'a> Settings<'a> {
    /// Python is installed before the build.
    pub fn sets_up_python(&self) -> (r: bool)
        ensures
            r == self@.sets_up_python(),
    {
        self.pytest || self.bridge.requires_python()
    }

    /// The command line of the build.
    pub fn build_args(&self, platform: Platform) -> (r: String)
        ensures
            r@ == self@.build_args(platform),
    {
        let mut args: Vec<String> = Vec::new();
        assert(args.deep_view() =~= Seq::empty());
        push_str(&mut args, "--release --out dist");
        if self.bridge.is_abi3() || (self.bridge.is_bin() && !self.sets_up_python()) {
        } else if platform == Platform::Emscripten {
            push_str(&mut args, "-i");
            push_str(&mut args, "3.10");
        } else {
            push_str(&mut args, "--find-interpreter");
        }
        assert(args.deep_view() =~= seq!["--release --out dist"@] + self@.interpreter_args(
            platform,
        ));
        push_manifest_args(&mut args, &self.manifest_path);
        if self.zig && platform == Platform::Linux {
            push_str(&mut args, "--zig");
        }
        assert(args.deep_view() =~= self@.build_arg_list(platform));
        join_strings(&args, " ")
    }

    /// The step that builds the wheels.
    pub fn build_step(&self, platform: Platform) -> (r: Step)
        ensures
            r@ == self@.build_step(platform),
    {
        let target = if platform == Platform::Emscripten {
            "wasm32-unknown-emscripten"
        } else {
            "${{ matrix.target }}"
        };
        let args = self.build_args(platform);
        let step = Step::action("PyO3/maturin-action@v1").named("Build wheels").with(
            "target",
            target,
        ).with("args", args.as_str());
        if platform == Platform::Linux {
            step.with("manylinux", "auto")
        } else if platform == Platform::Emscripten {
            step.with("rust-toolchain", "nightly")
        } else {
            step
        }
    }

    /// The step that uploads the wheels.
    pub fn upload_step(&self, platform: Platform) -> (r: Step)
        ensures
            r@ == self@.upload_step(platform),
    {
        let artifact = if platform == Platform::Emscripten {
            "wasm-wheels"
        } else {
            "wheels"
        };
        Step::upload("Upload wheels", artifact)
    }

    fn install_line(&self, pip: &str) -> (r: String)
        ensures
            r@ == install_line(pip@, self@.project_name),
    {
        let mut line = String::from_str(pip);
        line.append(" install ");
        line.append(self.project_name);
        line.append(" --find-links dist --force-reinstall");
        line
    }

    fn test_line(&self, runner: &str) -> (r: String)
        ensures
            r@ == self@.test_line(runner@),
    {
        match &self.test_dir {
            Some(dir) => {
                let mut line = String::from_str("cd ");
                line.append(dir.as_str());
                line.append(" && ");
                line.append(runner);
                line
            },
            None => String::from_str(runner),
        }
    }

    fn test_script(&self, pip: &str, with_pytest: bool, runner: &str) -> (r: Vec<String>)
        ensures
            r.deep_view() == self@.test_script(pip@, with_pytest, runner@),
    {
        let mut lines: Vec<String> = Vec::new();
        assert(lines.deep_view() =~= Seq::empty());
        push_str(&mut lines, "set -e");
        push_string(&mut lines, self.install_line(pip));
        if with_pytest {
            push_str(&mut lines, "pip install pytest");
        }
        push_string(&mut lines, self.test_line(runner));
        assert(lines.deep_view() =~= self@.test_script(pip@, with_pytest, runner@));
        lines
    }

    /// The tests on the machine of the job, for the x86_64 build of Linux.
    pub fn host_test_step(&self) -> (r: Step)
        ensures
            r@ == self@.host_test_step(),
    {
        Step::script_block(self.test_script("pip", true, "pytest")).named("pytest").when(
            "${{ startsWith(matrix.target, 'x86_64') }}",
        ).in_shell("bash")
    }

    /// The tests under emulation, for the other architectures of Linux.
    pub fn emulated_test_step(&self) -> (r: Step)
        ensures
            r@ == self@.emulated_test_step(),
    {
        let mut install: Vec<String> = Vec::new();
        assert(install.deep_view() =~= Seq::empty());
        push_str(&mut install, "apt-get update");
        push_str(&mut install, "apt-get install -y --no-install-recommends python3 python3-pip");
        push_str(&mut install, "pip3 install -U pip pytest");
        assert(install.deep_view() =~= seq![
            "apt-get update"@,
            "apt-get install -y --no-install-recommends python3 python3-pip"@,
            "pip3 install -U pip pytest"@,
        ]);
        Step::action("uraimo/run-on-arch-action@v2.5.0").named("pytest").when(
            "${{ !startsWith(matrix.target, 'x86') && matrix.target != 'ppc64' }}",
        ).with("arch", "${{ matrix.target }}").with("distro", "ubuntu22.04").with(
            "githubToken",
            "${{ github.token }}",
        ).with_block("install", install).with_block(
            "run",
            self.test_script("pip3", false, "pytest"),
        )
    }

    /// The tests of a Windows or macOS build, on the machine of the job.
    pub fn native_test_step(&self) -> (r: Step)
        ensures
            r@ == self@.native_test_step(),
    {
        Step::script_block(self.test_script("pip", true, "pytest")).named("pytest").when(
            "${{ !startsWith(matrix.target, 'aarch64') }}",
        ).in_shell("bash")
    }

    /// The tests of an Emscripten build.
    pub fn wasm_test_step(&self) -> (r: Step)
        ensures
            r@ == self@.wasm_test_step(),
    {
        let mut lines: Vec<String> = Vec::new();
        assert(lines.deep_view() =~= Seq::empty());
        push_str(&mut lines, "set -e");
        push_str(&mut lines, "pyodide venv .venv");
        push_str(&mut lines, "source .venv/bin/activate");
        push_string(&mut lines, self.install_line("pip"));
        push_str(&mut lines, "pip install pytest");
        push_string(&mut lines, self.test_line("python -m pytest"));
        assert(lines.deep_view() =~= self@.wasm_test_script());
        Step::script_block(lines).named("pytest")
    }

    /// The steps of the job for `platform`.
    pub fn steps(&self, platform: Platform) -> (r: Vec<Step>)
        ensures
            r.deep_view() == self@.steps(platform),
    {
        let mut steps: Vec<Step> = Vec::new();
        assert(steps.deep_view() =~= Seq::empty());
        push_step(&mut steps, Step::checkout());
        if self.sets_up_python() {
            push_step(&mut steps, Step::setup_python(platform));
        }
        if platform == Platform::Emscripten {
            push_step(&mut steps, Step::install_pyodide_build());
            push_step(&mut steps, Step::export_emscripten_version());
            push_step(&mut steps, Step::setup_emsdk());
        }
        push_step(&mut steps, self.build_step(platform));
        push_step(&mut steps, self.upload_step(platform));
        assert(steps.deep_view() =~= seq![StepView::checkout()] + self@.python_steps(platform)
            + self@.toolchain_steps(platform) + seq![
            self@.build_step(platform),
            self@.upload_step(platform),
        ]);
        if self.pytest {
            if platform == Platform::Linux {
                push_step(&mut steps, self.host_test_step());
                push_step(&mut steps, self.emulated_test_step());
            } else if platform == Platform::Emscripten {
                push_step(&mut steps, Step::setup_node());
                push_step(&mut steps, self.wasm_test_step());
            } else {
                push_step(&mut steps, self.native_test_step());
            }
        }
        assert(steps.deep_view() =~= self@.steps(platform));
        steps
    }
}

/// Appends `step` to `steps`.
pub(crate) fn push_step(steps: &mut Vec<Step>, step: Step)
    ensures
        final(steps).deep_view() == old(steps).deep_view().push(step@),
{
    let ghost before = *steps;
    steps.push(step);
    proof {
        lemma_push_deep_view(before, *steps, step);
    }
}

/// The step runs the action that installs Python.
pub open spec fn installs_python(step: StepView) -> bool {
    step.uses == Some("actions/setup-python@v4"@)
}

/// The step runs the tests of the project.
pub open spec fn runs_tests(step: StepView) -> bool {
    step.name == Some("pytest"@)
}

/// `args` holds the switch to another manifest, followed by `path`.
pub open spec fn points_at_manifest(args: Seq<Seq<char>>, path: Seq<char>) -> bool {
    exists|k: int|
        0 <= k && k + 1 < args.len() && #[trigger] args[k] == "--manifest-path"@ && args[k + 1]
            == path
}

/// The lines that the step runs as a script: its own script, or else the
/// value of its parameter `run`.
pub open spec fn script_of(step: StepView) -> Option<Seq<Seq<char>>> {
    match step.run {
        Some(ValueView::Block(lines)) => Some(lines),
        Some(ValueView::Scalar(_)) => None,
        None => if step.params.len() > 0 && step.params.last().key == "run"@ {
            match step.params.last().value {
                ValueView::Block(lines) => Some(lines),
                ValueView::Scalar(_) => None,
            }
        } else {
            None
        },
    }
}

impl SettingsView {
    /// Where the build stands among the steps of the job.
    pub open spec fn build_index(self, platform: Platform) -> int {
        (1 + self.python_steps(platform).len() + self.toolchain_steps(platform).len()) as int
    }
}

/// A job installs Python exactly if tests are asked for or the artifact
/// takes Python to build; it then does so right after the checkout, and
/// nowhere else.
pub proof fn lemma_python_installed_iff_needed(s: SettingsView, platform: Platform)
    ensures
        s.steps(platform)[0] == StepView::checkout(),
        s.sets_up_python() ==> s.steps(platform)[1] == StepView::setup_python(platform),
        forall|i: int|
            0 <= i < s.steps(platform).len() ==> (installs_python(#[trigger] s.steps(platform)[i])
                <==> s.sets_up_python() && i == 1),
        (exists|i: int|
            0 <= i < s.steps(platform).len() && installs_python(#[trigger] s.steps(platform)[i]))
            <==> s.pytest || s.bridge.requires_python(),
{
    reveal_strlit("actions/setup-python@v4");
    reveal_strlit("actions/checkout@v3");
    reveal_strlit("mymindstorm/setup-emsdk@v12");
    reveal_strlit("PyO3/maturin-action@v1");
    reveal_strlit("actions/upload-artifact@v3");
    reveal_strlit("uraimo/run-on-arch-action@v2.5.0");
    reveal_strlit("actions/setup-node@v3");
    let steps = s.steps(platform);
    let head = seq![StepView::checkout()] + s.python_steps(platform) + s.toolchain_steps(platform);
    let build = seq![s.build_step(platform), s.upload_step(platform)];
    let tests = s.test_steps(platform);
    assert(steps == head + build + tests);
    assert("actions/setup-python@v4"@.len() == 23);
    assert("actions/checkout@v3"@.len() == 19);
    assert("mymindstorm/setup-emsdk@v12"@.len() == 27);
    assert("PyO3/maturin-action@v1"@.len() == 22);
    assert("actions/upload-artifact@v3"@.len() == 26);
    assert("uraimo/run-on-arch-action@v2.5.0"@.len() == 32);
    assert("actions/setup-node@v3"@.len() == 21);
    assert forall|i: int| 0 <= i < steps.len() implies (installs_python(#[trigger] steps[i])
        <==> s.sets_up_python() && i == 1) by {
        if i < head.len() {
            assert(steps[i] == head[i]);
        } else if i < head.len() + 2 {
            assert(steps[i] == build[i - head.len()]);
        } else {
            assert(steps[i] == tests[i - head.len() - 2]);
        }
    }
}

/// A job runs tests exactly if tests are asked for, and then after the
/// upload of what it built.
pub proof fn lemma_tests_iff_asked_for(s: SettingsView, platform: Platform)
    ensures
        s.steps(platform).len() == s.build_index(platform) + 2 + s.test_steps(platform).len(),
        s.steps(platform)[s.build_index(platform) + 1] == s.upload_step(platform),
        s.pytest <==> s.test_steps(platform).len() > 0,
        forall|i: int|
            0 <= i < s.steps(platform).len() && runs_tests(#[trigger] s.steps(platform)[i])
                ==> s.pytest && i > s.build_index(platform) + 1,
        s.pytest ==> runs_tests(s.steps(platform).last()),
{
    reveal_strlit("pytest");
    reveal_strlit("Build wheels");
    reveal_strlit("Upload wheels");
    assert("pytest"@.len() == 6);
    assert("Build wheels"@.len() == 12);
    assert("Upload wheels"@.len() == 13);
    let steps = s.steps(platform);
    let head = seq![StepView::checkout()] + s.python_steps(platform) + s.toolchain_steps(platform);
    let build = seq![s.build_step(platform), s.upload_step(platform)];
    let tests = s.test_steps(platform);
    assert(steps == head + build + tests);
    assert forall|i: int| 0 <= i < steps.len() && runs_tests(#[trigger] steps[i]) implies s.pytest
        && i > s.build_index(platform) + 1 by {
        if i < head.len() {
            assert(steps[i] == head[i]);
        } else if i < head.len() + 2 {
            assert(steps[i] == build[i - head.len()]);
        }
    }
    if s.pytest {
        assert(steps.last() == tests.last());
    }
}

/// Cross compiling with zig changes the arguments of the build on Linux,
/// and nothing else in any job: of two settings that differ in that switch
/// alone, the steps are the same but for the build on Linux, and the two
/// builds are the same but for their arguments.
pub proof fn lemma_zig_changes_linux_build_args_only(
    s: SettingsView,
    t: SettingsView,
    platform: Platform,
)
    requires
        t == (SettingsView { zig: t.zig, ..s }),
    ensures
        platform != Platform::Linux ==> t.steps(platform) == s.steps(platform),
        t.steps(platform).len() == s.steps(platform).len(),
        t.build_index(platform) == s.build_index(platform),
        0 <= s.build_index(platform) < s.steps(platform).len(),
        s.steps(platform)[s.build_index(platform)] == s.build_step(platform),
        t.steps(platform)[s.build_index(platform)] == t.build_step(platform),
        forall|i: int|
            0 <= i < s.steps(platform).len() && i != s.build_index(platform)
                ==> #[trigger] t.steps(platform)[i] == s.steps(platform)[i],
        s.build_step(platform).params[1].key == "args"@,
        t.build_step(platform) == (StepView {
            params: s.build_step(platform).params.update(1, t.build_step(platform).params[1]),
            ..s.build_step(platform)
        }),
{
    let head = seq![StepView::checkout()] + s.python_steps(platform) + s.toolchain_steps(platform);
    assert(t.python_steps(platform) == s.python_steps(platform));
    assert(t.toolchain_steps(platform) == s.toolchain_steps(platform));
    assert(t.test_steps(platform) =~= s.test_steps(platform));
    assert(s.steps(platform) == head + seq![s.build_step(platform), s.upload_step(platform)]
        + s.test_steps(platform));
    assert(t.steps(platform) == head + seq![t.build_step(platform), t.upload_step(platform)]
        + t.test_steps(platform));
    assert(s.steps(platform)[s.build_index(platform)] == s.build_step(platform));
    assert(t.steps(platform)[s.build_index(platform)] == t.build_step(platform));
    if platform != Platform::Linux {
        assert(t.build_arg_list(platform) == s.build_arg_list(platform));
    }
    assert(t.build_step(platform).params =~= s.build_step(platform).params.update(
        1,
        t.build_step(platform).params[1],
    ));
}

/// A manifest path that is set is handed to every build as it stands,
/// behind the switch for it.
pub proof fn lemma_manifest_path_in_build_args(s: SettingsView, platform: Platform, path: Seq<char>)
    requires
        s.manifest_path == Some(path),
    ensures
        points_at_manifest(s.build_arg_list(platform), path),
        s.build_step(platform).params[1].key == "args"@,
        s.build_step(platform).params[1].value == ValueView::Scalar(
            join(s.build_arg_list(platform), " "@),
        ),
{
    let args = s.build_arg_list(platform);
    let k = 1 + s.interpreter_args(platform).len() as int;
    assert(args[k] == "--manifest-path"@);
    assert(args[k + 1] == path);
}

/// The command that runs the tests on `platform`.
pub open spec fn test_command(platform: Platform) -> Seq<char> {
    if platform == Platform::Emscripten {
        "python -m pytest"@
    } else {
        "pytest"@
    }
}

/// Every script that runs tests ends with the test run. Where the tests
/// have a directory of their own, the same command first changes into it;
/// where they have none, it is the test run alone.
pub proof fn lemma_tests_run_in_test_dir(s: SettingsView, platform: Platform)
    ensures
        forall|i: int|
            #![trigger s.test_steps(platform)[i]]
            0 <= i < s.test_steps(platform).len() ==> match script_of(s.test_steps(platform)[i]) {
                Some(lines) => lines.len() > 0 && lines.last() == (match s.test_dir {
                    Some(dir) => "cd "@ + dir + " && "@ + test_command(platform),
                    None => test_command(platform),
                }),
                None => s.test_steps(platform)[i] == StepView::setup_node(),
            },
{
    reveal_strlit("run");
    reveal_strlit("node-version");
    let steps = s.test_steps(platform);
    assert forall|i: int| #![trigger steps[i]] 0 <= i < steps.len() implies match script_of(
        steps[i],
    ) {
        Some(lines) => lines.len() > 0 && lines.last() == (match s.test_dir {
            Some(dir) => "cd "@ + dir + " && "@ + test_command(platform),
            None => test_command(platform),
        }),
        None => steps[i] == StepView::setup_node(),
    } by {
        if platform == Platform::Linux {
            if i == 0 {
                assert(steps[i] == s.host_test_step());
            } else {
                assert(steps[i] == s.emulated_test_step());
                assert(s.emulated_test_step().params.last().key == "run"@);
            }
        } else if platform == Platform::Emscripten {
            if i == 0 {
                assert(steps[i] == StepView::setup_node());
                assert(StepView::setup_node().params.last().key == "node-version"@);
            } else {
                assert(steps[i] == s.wasm_test_step());
            }
        } else {
            assert(steps[i] == s.native_test_step());
        }
    }
}

} // verus!
