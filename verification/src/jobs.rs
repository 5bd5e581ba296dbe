//! The jobs of the workflow: one for each platform, one for the source
//! distribution, and the release that waits for them.

use vstd::prelude::*;
use crate::bridge::BridgeModelView;
use crate::model::{job_names, lemma_push_deep_view, Job, JobView, Step, StepView, ValueView};
use crate::platform::{
    lemma_names_differ, lemma_resolved_canonical, resolved_platforms, selected, Platform,
};
use crate::steps::{
    lemma_zig_changes_linux_build_args_only, manifest_args, points_at_manifest,
    push_manifest_args, push_step, Settings, SettingsView,
};
use crate::text::{join, join_strings, push_str, push_string};

verus! {

/// The image that the job of `platform` runs on. Linux and Emscripten are
/// built on Ubuntu, every other platform on the image of its own name.
pub open spec fn runner(platform: Platform) -> Seq<char> {
    (if platform == Platform::Linux || platform == Platform::Emscripten {
        "ubuntu"@
    } else {
        platform.name()
    }) + "-latest"@
}

/// The architectures that are built on `platform`.
pub open spec fn targets(platform: Platform) -> Seq<Seq<char>> {
    match platform {
        Platform::Linux => seq![
            "x86_64"@,
            "x86"@,
            "aarch64"@,
            "armv7"@,
            "s390x"@,
            "ppc64le"@,
        ],
        Platform::Windows => seq!["x64"@, "x86"@],
        Platform::Macos => seq!["x86_64"@, "aarch64"@],
        Platform::Emscripten => Seq::empty(),
        Platform::All => Seq::empty(),
    }
}

/// The arguments with which the source distribution is built.
pub open spec fn sdist_arg_list(manifest_path: Option<Seq<char>>) -> Seq<Seq<char>> {
    seq!["--out dist"@] + manifest_args(manifest_path)
}

impl StepView {
    /// Builds the source distribution.
    pub open spec fn build_sdist(manifest_path: Option<Seq<char>>) -> StepView {
        StepView::action("PyO3/maturin-action@v1"@).named("Build sdist"@).with(
            "command"@,
            "sdist"@,
        ).with("args"@, join(sdist_arg_list(manifest_path), " "@))
    }

    /// Downloads the wheels and the source distribution.
    pub open spec fn download_wheels() -> StepView {
        StepView::action("actions/download-artifact@v3"@).with("name"@, "wheels"@)
    }

    /// Uploads what was downloaded to PyPI.
    pub open spec fn publish() -> StepView {
        StepView::action("PyO3/maturin-action@v1"@).named("Publish to PyPI"@).with_env(
            "MATURIN_PYPI_TOKEN"@,
            "${{ secrets.PYPI_API_TOKEN }}"@,
        ).with("command"@, "upload"@).with("args"@, "--skip-existing *"@)
    }

    /// Downloads the wheels built for Emscripten.
    pub open spec fn download_wasm_wheels() -> StepView {
        StepView::action("actions/download-artifact@v3"@).with("name"@, "wasm-wheels"@).with(
            "path"@,
            "wasm"@,
        )
    }

    /// Attaches the wheels built for Emscripten to the release on GitHub.
    pub open spec fn publish_wasm_wheels() -> StepView {
        StepView::action("softprops/action-gh-release@v1"@).named(
            "Upload to GitHub Release"@,
        ).with_block("files"@, seq!["wasm/*.whl"@]).with(
            "prerelease"@,
            "${{ contains(github.ref, 'alpha') || contains(github.ref, 'beta') }}"@,
        )
    }
}

impl JobView {
    /// The job that builds the source distribution.
    pub open spec fn sdist(manifest_path: Option<Seq<char>>) -> JobView {
        JobView {
            name: "sdist"@,
            title: None,
            runs_on: "ubuntu-latest"@,
            guard: None,
            needs: None,
            targets: Seq::empty(),
            steps: seq![
                StepView::checkout(),
                StepView::build_sdist(manifest_path),
                StepView::upload("Upload sdist"@, "wheels"@),
            ],
        }
    }

    /// The steps of the release: publish the wheels and, if `wasm`, attach
    /// those built for Emscripten to the release on GitHub.
    pub open spec fn release_steps(wasm: bool) -> Seq<StepView> {
        seq![StepView::download_wheels(), StepView::publish()] + (if wasm {
            seq![StepView::download_wasm_wheels(), StepView::publish_wasm_wheels()]
        } else {
            Seq::empty()
        })
    }

    /// The job that publishes what the jobs `needs` built. It runs for a
    /// tag only.
    pub open spec fn release(needs: Seq<Seq<char>>, wasm: bool) -> JobView {
        JobView {
            name: "release"@,
            title: Some("Release"@),
            runs_on: "ubuntu-latest"@,
            guard: Some("\"startsWith(github.ref, 'refs/tags/')\""@),
            needs: Some(needs),
            targets: Seq::empty(),
            steps: Self::release_steps(wasm),
        }
    }
}

impl SettingsView {
    /// The job that builds the wheels for `platform`.
    pub open spec fn platform_job(self, platform: Platform) -> JobView {
        JobView {
            name: platform.name(),
            title: None,
            runs_on: runner(platform),
            guard: None,
            needs: None,
            targets: targets(platform),
            steps: self.steps(platform),
        }
    }

    /// The jobs that build the wheels, one for each of `platforms`.
    pub open spec fn platform_jobs(self, platforms: Seq<Platform>) -> Seq<JobView> {
        Seq::new(platforms.len(), |i: int| self.platform_job(platforms[i]))
    }

    /// The jobs that build something: those of the platforms, then that of
    /// the source distribution if there is one.
    pub open spec fn build_jobs(self, platforms: Seq<Platform>, sdist: bool) -> Seq<JobView> {
        self.platform_jobs(platforms) + (if sdist {
            seq![JobView::sdist(self.manifest_path)]
        } else {
            Seq::empty()
        })
    }

    /// All jobs of the workflow: the jobs that build, then the release,
    /// which waits for each of them.
    pub open spec fn jobs(self, platforms: Seq<Platform>, sdist: bool) -> Seq<JobView> {
        let built = self.build_jobs(platforms, sdist);
        built.push(JobView::release(job_names(built), platforms.contains(Platform::Emscripten)))
    }
}

fn runner_of(platform: Platform) -> (r: String)
    ensures
        r@ == runner(platform),
{
    let mut image = match platform {
        Platform::Linux => String::from_str("ubuntu"),
        Platform::Emscripten => String::from_str("ubuntu"),
        _ => String::from_str(platform.as_str()),
    };
    image.append("-latest");
    image
}

fn targets_of(platform: Platform) -> (r: Vec<String>)
    ensures
        r.deep_view() == targets(platform),
{
    let mut list: Vec<String> = Vec::new();
    assert(list.deep_view() =~= Seq::empty());
    match platform {
        Platform::Linux => {
            push_str(&mut list, "x86_64");
            push_str(&mut list, "x86");
            push_str(&mut list, "aarch64");
            push_str(&mut list, "armv7");
            push_str(&mut list, "s390x");
            push_str(&mut list, "ppc64le");
        },
        Platform::Windows => {
            push_str(&mut list, "x64");
            push_str(&mut list, "x86");
        },
        Platform::Macos => {
            push_str(&mut list, "x86_64");
            push_str(&mut list, "aarch64");
        },
        Platform::Emscripten => {},
        Platform::All => {},
    }
    assert(list.deep_view() =~= targets(platform));
    list
}

impl Step {
    /// Builds the source distribution.
    pub fn build_sdist(manifest_path: &Option<String>) -> (r: Step)
        ensures
            r@ == StepView::build_sdist(manifest_path.deep_view()),
    {
        let mut args: Vec<String> = Vec::new();
        assert(args.deep_view() =~= Seq::empty());
        push_str(&mut args, "--out dist");
        push_manifest_args(&mut args, manifest_path);
        Step::action("PyO3/maturin-action@v1").named("Build sdist").with("command", "sdist").with(
            "args",
            join_strings(&args, " ").as_str(),
        )
    }

    /// Downloads the wheels and the source distribution.
    pub fn download_wheels() -> (r: Step)
        ensures
            r@ == StepView::download_wheels(),
    {
        Step::action("actions/download-artifact@v3").with("name", "wheels")
    }

    /// Uploads what was downloaded to PyPI.
    pub fn publish() -> (r: Step)
        ensures
            r@ == StepView::publish(),
    {
        Step::action("PyO3/maturin-action@v1").named("Publish to PyPI").with_env(
            "MATURIN_PYPI_TOKEN",
            "${{ secrets.PYPI_API_TOKEN }}",
        ).with("command", "upload").with("args", "--skip-existing *")
    }

    /// Downloads the wheels built for Emscripten.
    pub fn download_wasm_wheels() -> (r: Step)
        ensures
            r@ == StepView::download_wasm_wheels(),
    {
        Step::action("actions/download-artifact@v3").with("name", "wasm-wheels").with(
            "path",
            "wasm",
        )
    }

    /// Attaches the wheels built for Emscripten to the release on GitHub.
    pub fn publish_wasm_wheels() -> (r: Step)
        ensures
            r@ == StepView::publish_wasm_wheels(),
    {
        let mut files: Vec<String> = Vec::new();
        assert(files.deep_view() =~= Seq::empty());
        push_str(&mut files, "wasm/*.whl");
        Step::action("softprops/action-gh-release@v1").named(
            "Upload to GitHub Release",
        ).with_block("files", files).with(
            "prerelease",
            "${{ contains(github.ref, 'alpha') || contains(github.ref, 'beta') }}",
        )
    }
}

/// Appends `job` to `jobs`.
pub(crate) fn push_job(jobs: &mut Vec<Job>, job: Job)
    ensures
        final(jobs).deep_view() == old(jobs).deep_view().push(job@),
{
    let ghost before = *jobs;
    jobs.push(job);
    proof {
        lemma_push_deep_view(before, *jobs, job);
    }
}

/// The names of `jobs`, in order.
pub fn names_of(jobs: &Vec<Job>) -> (r: Vec<String>)
    ensures
        r.deep_view() == job_names(jobs.deep_view()),
{
    let mut names: Vec<String> = Vec::new();
    let mut i: usize = 0;
    while i < jobs.len()
        invariant
            i <= jobs.len(),
            names.deep_view() =~= job_names(jobs.deep_view().take(i as int)),
        decreases jobs.len() - i,
    {
        push_string(&mut names, jobs[i].name.clone());
        i += 1;
    }
    assert(jobs.deep_view().take(jobs.len() as int) == jobs.deep_view());
    names
}

impl Job {
    /// The job that builds the source distribution.
    pub fn sdist(manifest_path: &Option<String>) -> (r: Job)
        ensures
            r@ == JobView::sdist(manifest_path.deep_view()),
    {
        let mut steps: Vec<Step> = Vec::new();
        assert(steps.deep_view() =~= Seq::empty());
        push_step(&mut steps, Step::checkout());
        push_step(&mut steps, Step::build_sdist(manifest_path));
        push_step(&mut steps, Step::upload("Upload sdist", "wheels"));
        assert(steps.deep_view() =~= JobView::sdist(manifest_path.deep_view()).steps);
        let targets: Vec<String> = Vec::new();
        assert(targets.deep_view() =~= Seq::empty());
        Job {
            name: String::from_str("sdist"),
            title: None,
            runs_on: String::from_str("ubuntu-latest"),
            guard: None,
            needs: None,
            targets,
            steps,
        }
    }

    /// The job that publishes what the jobs `needs` built.
    pub fn release(needs: Vec<String>, wasm: bool) -> (r: Job)
        ensures
            r@ == JobView::release(needs.deep_view(), wasm),
    {
        let mut steps: Vec<Step> = Vec::new();
        assert(steps.deep_view() =~= Seq::empty());
        push_step(&mut steps, Step::download_wheels());
        push_step(&mut steps, Step::publish());
        if wasm {
            push_step(&mut steps, Step::download_wasm_wheels());
            push_step(&mut steps, Step::publish_wasm_wheels());
        }
        assert(steps.deep_view() =~= JobView::release_steps(wasm));
        let targets: Vec<String> = Vec::new();
        assert(targets.deep_view() =~= Seq::empty());
        Job {
            name: String::from_str("release"),
            title: Some(String::from_str("Release")),
            runs_on: String::from_str("ubuntu-latest"),
            guard: Some(String::from_str("\"startsWith(github.ref, 'refs/tags/')\"")),
            needs: Some(needs),
            targets,
            steps,
        }
    }
}

fn has_emscripten(platforms: &Vec<Platform>) -> (r: bool)
    ensures
        r == platforms@.contains(Platform::Emscripten),
{
    let mut i: usize = 0;
    while i < platforms.len()
        invariant
            i <= platforms.len(),
            forall|j: int| 0 <= j < i ==> platforms@[j] != Platform::Emscripten,
        decreases platforms.len() - i,
    {
        if platforms[i] == Platform::Emscripten {
            return true;
        }
        i += 1;
    }
    false
}

impl<'a> Settings<'a> {
    /// The job that builds the wheels for `platform`.
    pub fn platform_job(&self, platform: Platform) -> (r: Job)
        ensures
            r@ == self@.platform_job(platform),
    {
        Job {
            name: String::from_str(platform.as_str()),
            title: None,
            runs_on: runner_of(platform),
            guard: None,
            needs: None,
            targets: targets_of(platform),
            steps: self.steps(platform),
        }
    }

    /// All jobs of the workflow that builds for `platforms`.
    pub fn jobs(&self, platforms: &Vec<Platform>, sdist: bool) -> (r: Vec<Job>)
        ensures
            r.deep_view() == self@.jobs(platforms@, sdist),
    {
        let mut jobs: Vec<Job> = Vec::new();
        let mut i: usize = 0;
        while i < platforms.len()
            invariant
                i <= platforms.len(),
                jobs.deep_view() =~= self@.platform_jobs(platforms@.take(i as int)),
            decreases platforms.len() - i,
        {
            push_job(&mut jobs, self.platform_job(platforms[i]));
            i += 1;
        }
        assert(platforms@.take(platforms.len() as int) == platforms@);
        if sdist {
            push_job(&mut jobs, Job::sdist(&self.manifest_path));
        }
        assert(jobs.deep_view() =~= self@.build_jobs(platforms@, sdist));
        let release = Job::release(names_of(&jobs), has_emscripten(platforms));
        push_job(&mut jobs, release);
        jobs
    }
}

/// The names of `platforms`, in order.
pub open spec fn platform_names(platforms: Seq<Platform>) -> Seq<Seq<char>> {
    Seq::new(platforms.len(), |i: int| platforms[i].name())
}

/// The workflow holds one job for each platform, in the order of the
/// platforms, then the job of the source distribution if there is one, then
/// the release. The release waits for exactly the jobs before it, by name
/// and in their order, and no other job waits for any.
pub proof fn lemma_release_needs_emitted_jobs(
    s: SettingsView,
    platforms: Seq<Platform>,
    sdist: bool,
)
    ensures
        ({
            let jobs = s.jobs(platforms, sdist);
            &&& jobs.len() == platforms.len() + (if sdist {
                2int
            } else {
                1int
            })
            &&& forall|i: int|
                0 <= i < platforms.len() ==> #[trigger] jobs[i] == s.platform_job(platforms[i])
            &&& sdist ==> jobs[platforms.len() as int] == JobView::sdist(s.manifest_path)
            &&& jobs.last().name == "release"@
            &&& jobs.last().needs == Some(job_names(jobs.drop_last()))
            &&& job_names(jobs.drop_last()) == platform_names(platforms) + (if sdist {
                seq!["sdist"@]
            } else {
                Seq::empty()
            })
            &&& forall|i: int| 0 <= i < jobs.len() - 1 ==> (#[trigger] jobs[i]).needs is None
        }),
{
    let built = s.build_jobs(platforms, sdist);
    let jobs = s.jobs(platforms, sdist);
    assert(jobs.drop_last() =~= built);
    assert(job_names(built) =~= platform_names(platforms) + (if sdist {
        seq!["sdist"@]
    } else {
        Seq::empty()
    }));
}

/// The release attaches the wheels built for Emscripten to the release on
/// GitHub exactly if a job builds for Emscripten; it publishes to PyPI
/// either way.
pub proof fn lemma_release_steps(s: SettingsView, platforms: Seq<Platform>, sdist: bool)
    ensures
        s.jobs(platforms, sdist).last().steps == JobView::release_steps(
            platforms.contains(Platform::Emscripten),
        ),
        JobView::release_steps(true) == seq![
            StepView::download_wheels(),
            StepView::publish(),
            StepView::download_wasm_wheels(),
            StepView::publish_wasm_wheels(),
        ],
        JobView::release_steps(false) == seq![StepView::download_wheels(), StepView::publish()],
{
    assert(JobView::release_steps(true) =~= seq![
        StepView::download_wheels(),
        StepView::publish(),
        StepView::download_wasm_wheels(),
        StepView::publish_wasm_wheels(),
    ]);
    assert(JobView::release_steps(false) =~= seq![
        StepView::download_wheels(),
        StepView::publish(),
    ]);
}

/// Cross compiling with zig changes no job but the one that builds for
/// Linux: of two settings that differ in that switch alone, every other
/// job is the same.
pub proof fn lemma_zig_changes_linux_job_only(
    s: SettingsView,
    t: SettingsView,
    platforms: Seq<Platform>,
    sdist: bool,
)
    requires
        t == (SettingsView { zig: t.zig, ..s }),
    ensures
        t.jobs(platforms, sdist).len() == s.jobs(platforms, sdist).len(),
        forall|i: int|
            0 <= i < s.jobs(platforms, sdist).len() && !(i < platforms.len() && platforms[i]
                == Platform::Linux) ==> #[trigger] t.jobs(platforms, sdist)[i] == s.jobs(
                platforms,
                sdist,
            )[i],
{
    let built = s.build_jobs(platforms, sdist);
    let built_t = t.build_jobs(platforms, sdist);
    assert(job_names(built) =~= job_names(built_t));
    assert forall|i: int|
        0 <= i < s.jobs(platforms, sdist).len() && !(i < platforms.len() && platforms[i]
            == Platform::Linux) implies #[trigger] t.jobs(platforms, sdist)[i] == s.jobs(
        platforms,
        sdist,
    )[i] by {
        if i < platforms.len() {
            lemma_zig_changes_linux_build_args_only(s, t, platforms[i]);
        }
    }
}

/// A manifest path that is set is handed to the build of the source
/// distribution as it stands, behind the switch for it.
pub proof fn lemma_manifest_path_in_sdist_args(path: Seq<char>)
    ensures
        points_at_manifest(sdist_arg_list(Some(path)), path),
        JobView::sdist(Some(path)).steps[1].params[1].key == "args"@,
        JobView::sdist(Some(path)).steps[1].params[1].value == ValueView::Scalar(
            join(sdist_arg_list(Some(path)), " "@),
        ),
{
    let args = sdist_arg_list(Some(path));
    assert(args[1] == "--manifest-path"@);
    assert(args[2] == path);
}

/// No two jobs of a workflow have the same name: the jobs of the resolved
/// platforms are named after the platforms, which are all different, and
/// none of them is named like the job of the source distribution or like
/// the release. No job is named after a platform that is not built for.
pub proof fn lemma_job_names_differ(
    s: SettingsView,
    requested: Seq<Platform>,
    bridge: BridgeModelView,
    sdist: bool,
)
    ensures
        job_names(s.jobs(resolved_platforms(requested, bridge), sdist)).no_duplicates(),
        forall|i: int, p: Platform|
            0 <= i < s.jobs(resolved_platforms(requested, bridge), sdist).len() && !selected(
                requested,
                bridge,
                p,
            ) ==> #[trigger] s.jobs(resolved_platforms(requested, bridge), sdist)[i].name
                != #[trigger] p.name(),
{
    reveal_strlit("all");
    reveal_strlit("linux");
    reveal_strlit("windows");
    reveal_strlit("macos");
    reveal_strlit("emscripten");
    reveal_strlit("sdist");
    reveal_strlit("release");
    assert("all"@.len() == 3);
    assert("linux"@.len() == 5 && "linux"@[0] == 'l');
    assert("windows"@.len() == 7 && "windows"@[0] == 'w');
    assert("macos"@.len() == 5 && "macos"@[0] == 'm');
    assert("emscripten"@.len() == 10);
    assert("sdist"@.len() == 5 && "sdist"@[0] == 's');
    assert("release"@.len() == 7 && "release"@[0] == 'r');
    let platforms = resolved_platforms(requested, bridge);
    let jobs = s.jobs(platforms, sdist);
    let names = job_names(jobs);
    lemma_resolved_canonical(requested, bridge);
    lemma_release_needs_emitted_jobs(s, platforms, sdist);
    assert forall|i: int, j: int|
        0 <= i < names.len() && 0 <= j < names.len() && i != j implies names[i] != names[j] by {
        if i < platforms.len() && j < platforms.len() {
            if i < j {
                assert(platforms[i].rank() < platforms[j].rank());
            } else {
                assert(platforms[j].rank() < platforms[i].rank());
            }
            lemma_names_differ(platforms[i], platforms[j]);
        }
    }
    assert forall|i: int, p: Platform|
        0 <= i < jobs.len() && !selected(requested, bridge, p) implies #[trigger] jobs[i].name
        != #[trigger] p.name() by {
        if i < platforms.len() {
            assert(platforms.contains(platforms[i]));
            lemma_names_differ(platforms[i], p);
        }
    }
}

} // verus!
