//! Whole workflows, looked at as data: which jobs there are, what the
//! release waits for, and which steps each job has.

use generate_ci::{BridgeModel, GenerateCI, Invocation, Job, Platform, Step, Workflow};

fn invocation() -> Invocation {
    Invocation {
        version: "1.0.0".to_string(),
        args: vec!["maturin".to_string(), "generate-ci".to_string(), "github".to_string()],
    }
}

fn binding() -> BridgeModel {
    BridgeModel::Bindings("x".to_string(), 7)
}

fn workflow(config: &GenerateCI, bridge: &BridgeModel, sdist: bool) -> Workflow {
    config.github_workflow("example", bridge, sdist, &invocation(), config.manifest())
}

fn names(jobs: &[Job]) -> Vec<&str> {
    jobs.iter().map(|job| job.name.as_str()).collect()
}

fn installs_python(step: &Step) -> bool {
    step.uses.as_deref() == Some("actions/setup-python@v4")
}

fn runs_tests(step: &Step) -> bool {
    step.name.as_deref() == Some("pytest")
}

fn release(workflow: &Workflow) -> &Job {
    workflow.jobs.last().unwrap()
}

#[test]
fn binding_on_three_platforms_with_sdist() {
    let config = GenerateCI {
        platforms: vec![Platform::Linux, Platform::Windows, Platform::Macos],
        pytest: false,
        ..Default::default()
    };
    let workflow = workflow(&config, &binding(), true);
    assert_eq!(workflow.jobs.len(), 5);
    assert_eq!(
        names(&workflow.jobs),
        vec!["linux", "windows", "macos", "sdist", "release"]
    );
    assert_eq!(
        release(&workflow).needs,
        Some(vec![
            "linux".to_string(),
            "windows".to_string(),
            "macos".to_string(),
            "sdist".to_string()
        ])
    );
    for job in &workflow.jobs {
        assert!(!job.steps.iter().any(runs_tests));
    }
    let text = workflow.render();
    let (_, jobs) = text.split_once("\njobs:\n").unwrap();
    let sections: Vec<&str> = jobs
        .lines()
        .filter(|l| l.starts_with("  ") && !l.starts_with("   "))
        .collect();
    assert_eq!(
        sections,
        vec!["  linux:", "  windows:", "  macos:", "  sdist:", "  release:"]
    );
    assert!(text.contains("    needs: [linux, windows, macos, sdist]\n"));
    assert!(!text.contains("pytest"));
}

#[test]
fn standalone_binary_without_tests_needs_no_python() {
    let config = GenerateCI {
        pytest: false,
        ..Default::default()
    };
    let workflow = workflow(&config, &BridgeModel::Bin(None), true);
    for job in &workflow.jobs {
        assert!(!job.steps.iter().any(installs_python));
        assert!(!job.steps.iter().any(runs_tests));
    }
    let text = workflow.render();
    assert!(!text.contains("setup-python"));
    assert!(!text.contains("pytest"));
    assert!(!text.contains("--find-interpreter"));
}

#[test]
fn standalone_binary_with_tests_installs_python_and_runs_them() {
    let config = GenerateCI {
        pytest: true,
        ..Default::default()
    };
    let workflow = workflow(&config, &BridgeModel::Bin(None), false);
    assert_eq!(names(&workflow.jobs), vec!["linux", "windows", "macos", "release"]);
    for job in &workflow.jobs[..3] {
        assert!(installs_python(&job.steps[1]));
        assert_eq!(job.steps.iter().filter(|s| installs_python(s)).count(), 1);
        assert!(job.steps.iter().any(runs_tests));
    }
    assert!(workflow.render().contains("args: --release --out dist --find-interpreter\n"));
}

#[test]
fn python_is_installed_iff_tested_or_required() {
    let bridges = [
        (BridgeModel::Bin(None), false),
        (BridgeModel::Bin(Some(("pyo3".to_string(), 0))), true),
        (binding(), true),
        (BridgeModel::BindingsAbi3(3, 7), true),
        (BridgeModel::Cffi, true),
        (BridgeModel::UniFfi, true),
    ];
    for (bridge, required) in &bridges {
        for pytest in [false, true] {
            let config = GenerateCI {
                platforms: vec![Platform::All],
                pytest,
                ..Default::default()
            };
            let workflow = workflow(&config, bridge, false);
            let built = &workflow.jobs[..workflow.jobs.len() - 1];
            assert!(!built.is_empty());
            for job in built {
                assert_eq!(
                    job.steps.iter().any(installs_python),
                    pytest || *required,
                    "{:?} pytest={} job={}",
                    bridge,
                    pytest,
                    job.name
                );
                assert_eq!(job.steps.iter().any(runs_tests), pytest);
                assert_eq!(job.steps[0], Step::action("actions/checkout@v3"));
            }
            assert!(!release(&workflow).steps.iter().any(installs_python));
        }
    }
}

#[test]
fn python_on_windows_is_set_up_for_the_architecture() {
    let config = GenerateCI {
        platforms: vec![Platform::All],
        ..Default::default()
    };
    let workflow = workflow(&config, &binding(), false);
    for job in &workflow.jobs[..4] {
        let keys: Vec<&str> = job.steps[1].params.iter().map(|p| p.key.as_str()).collect();
        if job.name == "windows" {
            assert_eq!(keys, vec!["python-version", "architecture"]);
        } else {
            assert_eq!(keys, vec!["python-version"]);
        }
    }
}

#[test]
fn emscripten_adds_two_steps_to_the_release() {
    let config = GenerateCI {
        platforms: vec![Platform::Linux, Platform::Emscripten],
        ..Default::default()
    };
    let workflow = workflow(&config, &binding(), false);
    assert_eq!(names(&workflow.jobs), vec!["linux", "emscripten", "release"]);
    let steps = &release(&workflow).steps;
    assert_eq!(steps.len(), 4);
    assert_eq!(steps[2].uses.as_deref(), Some("actions/download-artifact@v3"));
    assert_eq!(steps[3].uses.as_deref(), Some("softprops/action-gh-release@v1"));
    assert_eq!(steps[3].name.as_deref(), Some("Upload to GitHub Release"));
    assert!(workflow.render().ends_with(
        "      - uses: actions/download-artifact@v3\n        with:\n          name: wasm-wheels\n          path: wasm\n      - name: Upload to GitHub Release\n        uses: softprops/action-gh-release@v1\n        with:\n          files: |\n            wasm/*.whl\n          prerelease: ${{ contains(github.ref, 'alpha') || contains(github.ref, 'beta') }}\n"
    ));
}

#[test]
fn without_emscripten_the_release_has_two_steps() {
    let config = GenerateCI {
        platforms: vec![Platform::Linux],
        ..Default::default()
    };
    let workflow = workflow(&config, &binding(), false);
    let steps = &release(&workflow).steps;
    assert_eq!(steps.len(), 2);
    assert_eq!(steps[0].uses.as_deref(), Some("actions/download-artifact@v3"));
    assert_eq!(steps[1].name.as_deref(), Some("Publish to PyPI"));
    let text = workflow.render();
    assert!(!text.contains("wasm"));
    assert!(text.ends_with("          command: upload\n          args: --skip-existing *\n"));
}

#[test]
fn emscripten_requested_for_a_binary_leaves_no_trace() {
    let config = GenerateCI {
        platforms: vec![Platform::Linux, Platform::Emscripten],
        ..Default::default()
    };
    let workflow = workflow(&config, &BridgeModel::Bin(None), false);
    assert_eq!(names(&workflow.jobs), vec!["linux", "release"]);
    assert_eq!(release(&workflow).steps.len(), 2);
    assert_eq!(release(&workflow).needs, Some(vec!["linux".to_string()]));
    assert!(!workflow.render().contains("wasm"));
}

#[test]
fn release_waits_for_every_emitted_job_in_order() {
    for sdist in [false, true] {
        let config = GenerateCI {
            platforms: vec![Platform::Emscripten, Platform::All, Platform::Macos],
            ..Default::default()
        };
        let workflow = workflow(&config, &binding(), sdist);
        let all = names(&workflow.jobs);
        let (last, built) = all.split_last().unwrap();
        assert_eq!(*last, "release");
        let mut expected = vec!["linux", "windows", "macos", "emscripten"];
        if sdist {
            expected.push("sdist");
        }
        assert_eq!(built, expected.as_slice());
        let needs: Vec<&str> = release(&workflow)
            .needs
            .as_ref()
            .unwrap()
            .iter()
            .map(|s| s.as_str())
            .collect();
        assert_eq!(needs, expected);
        for job in &workflow.jobs[..workflow.jobs.len() - 1] {
            assert_eq!(job.needs, None);
        }
    }
}

#[test]
fn no_platform_leaves_the_release_alone() {
    let config = GenerateCI {
        platforms: vec![Platform::Emscripten],
        ..Default::default()
    };
    let workflow = workflow(&config, &BridgeModel::Bin(None), false);
    assert_eq!(names(&workflow.jobs), vec!["release"]);
    assert_eq!(release(&workflow).needs, Some(Vec::new()));
    assert!(workflow.render().contains("    needs: []\n"));
}

#[test]
fn runners_and_targets_of_each_platform() {
    let config = GenerateCI {
        platforms: vec![Platform::All],
        ..Default::default()
    };
    let workflow = workflow(&config, &binding(), true);
    let expected: [(&str, &str, &[&str]); 5] = [
        ("linux", "ubuntu-latest", &["x86_64", "x86", "aarch64", "armv7", "s390x", "ppc64le"]),
        ("windows", "windows-latest", &["x64", "x86"]),
        ("macos", "macos-latest", &["x86_64", "aarch64"]),
        ("emscripten", "ubuntu-latest", &[]),
        ("sdist", "ubuntu-latest", &[]),
    ];
    for (job, (name, runner, targets)) in workflow.jobs.iter().zip(expected.iter()) {
        assert_eq!(job.name, *name);
        assert_eq!(job.runs_on, *runner);
        assert_eq!(job.targets, targets.iter().map(|t| t.to_string()).collect::<Vec<_>>());
        assert_eq!(job.title, None);
        assert_eq!(job.guard, None);
    }
    let release = release(&workflow);
    assert_eq!(release.title.as_deref(), Some("Release"));
    assert_eq!(release.runs_on, "ubuntu-latest");
    assert_eq!(
        release.guard.as_deref(),
        Some("\"startsWith(github.ref, 'refs/tags/')\"")
    );
    assert!(release.targets.is_empty());
}

#[test]
fn zig_changes_the_linux_build_arguments_only() {
    for bridge in [binding(), BridgeModel::Bin(None), BridgeModel::BindingsAbi3(3, 8)] {
        for pytest in [false, true] {
            let plain = GenerateCI {
                platforms: vec![Platform::All],
                pytest,
                ..Default::default()
            };
            let zig = GenerateCI {
                zig: true,
                ..plain.clone()
            };
            let plain = workflow(&plain, &bridge, true);
            let zig = workflow(&zig, &bridge, true);
            assert_eq!(plain.jobs.len(), zig.jobs.len());
            for (a, b) in plain.jobs.iter().zip(zig.jobs.iter()) {
                if a.name != "linux" {
                    assert_eq!(a, b);
                    continue;
                }
                assert_eq!(a.steps.len(), b.steps.len());
                let mut changed = 0;
                for (x, y) in a.steps.iter().zip(b.steps.iter()) {
                    if x == y {
                        continue;
                    }
                    changed += 1;
                    assert_eq!(x.name.as_deref(), Some("Build wheels"));
                    assert_eq!(x.params.len(), y.params.len());
                    for (p, q) in x.params.iter().zip(y.params.iter()) {
                        if p != q {
                            assert_eq!(p.key, "args");
                            assert_eq!(q.key, "args");
                        }
                    }
                    let mut same = y.clone();
                    same.params[1] = x.params[1].clone();
                    assert_eq!(&same, x);
                }
                assert_eq!(changed, 1);
            }
            let text = zig.render();
            assert_eq!(text.matches("--zig").count(), 1);
            assert_eq!(plain.render().matches("--zig").count(), 0);
        }
    }
}

#[test]
fn job_names_are_all_different() {
    for bridge in [binding(), BridgeModel::Bin(None)] {
        let config = GenerateCI {
            platforms: vec![
                Platform::Macos,
                Platform::All,
                Platform::Emscripten,
                Platform::Macos,
                Platform::Linux,
            ],
            ..Default::default()
        };
        let workflow = workflow(&config, &bridge, true);
        let mut seen = names(&workflow.jobs);
        let count = seen.len();
        seen.sort();
        seen.dedup();
        assert_eq!(seen.len(), count);
        assert!(!seen.contains(&"all"));
        assert_eq!(seen.contains(&"emscripten"), !bridge.is_bin());
    }
}
