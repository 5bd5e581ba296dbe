//! The command as a whole: its options, the head of the document, the
//! manifest path, and where the text goes.

use generate_ci::{
    BridgeModel, Destination, GenerateCI, Invocation, Manifest, Output, Platform,
    Provider,
};

fn invocation() -> Invocation {
    Invocation {
        version: "0.14.17".to_string(),
        args: vec![
            "target/debug/maturin".to_string(),
            "generate-ci".to_string(),
            "--pytest".to_string(),
            "github".to_string(),
        ],
    }
}

fn binding() -> BridgeModel {
    BridgeModel::Bindings("pyo3".to_string(), 7)
}

fn with_manifest(path: &str, pytest: bool) -> GenerateCI {
    GenerateCI {
        manifest_path: Some(path.to_string()),
        pytest,
        ..Default::default()
    }
}

fn text(config: &GenerateCI, bridge: &BridgeModel, sdist: bool) -> String {
    config
        .generate_github("example", bridge, sdist, &invocation())
        .unwrap()
}

#[test]
fn default_options() {
    let config = GenerateCI::default();
    assert_eq!(config.ci, Provider::GitHub);
    assert_eq!(config.manifest_path, None);
    assert_eq!(config.output, "-");
    assert_eq!(
        config.platforms,
        vec![Platform::Linux, Platform::Windows, Platform::Macos]
    );
    assert!(!config.pytest);
    assert!(!config.zig);
}

#[test]
fn head_names_tool_version_and_command() {
    let text = text(&GenerateCI::default(), &binding(), false);
    assert!(text.starts_with(
        "# This file is autogenerated by maturin v0.14.17\n# To update, run\n#\n#    maturin generate-ci --pytest github\n#\non:\n  push:\n    branches:\n      - main\n      - master\n    tags:\n      - '*'\n  pull_request:\n  workflow_dispatch:\n\njobs:\n  linux:\n"
    ));
}

#[test]
fn command_replaces_the_program_name_only() {
    assert_eq!(invocation().command(), "maturin generate-ci --pytest github");
    let bare = Invocation {
        version: "1".to_string(),
        args: vec!["/some/where/else".to_string()],
    };
    assert_eq!(bare.command(), "maturin");
    let none = Invocation {
        version: "1".to_string(),
        args: Vec::new(),
    };
    assert_eq!(none.command(), "");
    let spaced = Invocation {
        version: "1".to_string(),
        args: vec!["x".to_string(), "a b".to_string(), "".to_string(), "maturin".to_string()],
    };
    assert_eq!(spaced.command(), "maturin a b  maturin");
}

#[test]
fn same_inputs_give_the_same_text() {
    let config = GenerateCI {
        platforms: vec![Platform::All],
        pytest: true,
        zig: true,
        manifest_path: Some("crates/py/Cargo.toml".to_string()),
        ..Default::default()
    };
    let first = text(&config, &binding(), true);
    let second = text(&config.clone(), &binding(), true);
    let third = text(&config, &BridgeModel::Bindings("pyo3".to_string(), 7), true);
    assert_eq!(first, second);
    assert_eq!(first, third);
}

#[test]
fn generate_goes_to_the_provider() {
    let config = GenerateCI {
        pytest: true,
        ..Default::default()
    };
    assert_eq!(
        config.generate("example", &binding(), true, &invocation()),
        config.generate_github("example", &binding(), true, &invocation())
    );
    assert_eq!(
        config
            .github_workflow("example", &binding(), true, &invocation(), config.manifest())
            .render(),
        config
            .generate("example", &binding(), true, &invocation())
            .unwrap()
    );
}

#[test]
fn default_manifest_path_is_not_handed_on() {
    let plain = text(&GenerateCI::default(), &binding(), true);
    assert!(!plain.contains("--manifest-path"));
    for path in ["Cargo.toml", "Cargo.toml/"] {
        for pytest in [false, true] {
            let config = with_manifest(path, pytest);
            let text = text(&config, &binding(), true);
            assert!(!text.contains("--manifest-path"), "{}", path);
            assert!(!text.contains("cd "), "{}", path);
            assert_eq!(config.manifest(), Manifest::Default);
        }
    }
    assert_eq!(text(&with_manifest("Cargo.toml", false), &binding(), true), plain);
}

#[test]
fn manifest_path_reaches_every_build_and_every_test() {
    let config = GenerateCI {
        platforms: vec![Platform::All],
        zig: true,
        ..with_manifest("crates/py/Cargo.toml", true)
    };
    assert_eq!(
        config.manifest(),
        Manifest::Custom {
            path: "crates/py/Cargo.toml".to_string(),
            parent: Some("crates/py".to_string()),
        }
    );
    let text = text(&config, &binding(), true);
    let args: Vec<&str> = text
        .lines()
        .filter(|l| l.starts_with("          args: ") && l.contains("--out dist"))
        .collect();
    assert_eq!(
        args,
        vec![
            "          args: --release --out dist --find-interpreter --manifest-path crates/py/Cargo.toml --zig",
            "          args: --release --out dist --find-interpreter --manifest-path crates/py/Cargo.toml",
            "          args: --release --out dist --find-interpreter --manifest-path crates/py/Cargo.toml",
            "          args: --release --out dist -i 3.10 --manifest-path crates/py/Cargo.toml",
            "          args: --out dist --manifest-path crates/py/Cargo.toml",
        ]
    );
    let runs: Vec<&str> = text
        .lines()
        .map(|l| l.trim_start())
        .filter(|l| l.ends_with("pytest") && !l.starts_with("pip") && !l.starts_with("- name"))
        .collect();
    assert_eq!(
        runs,
        vec![
            "cd crates/py && pytest",
            "cd crates/py && pytest",
            "cd crates/py && pytest",
            "cd crates/py && pytest",
            "cd crates/py && python -m pytest",
        ]
    );
}

#[test]
fn manifest_path_without_tests_changes_the_arguments_only() {
    let plain = text(&GenerateCI::default(), &BridgeModel::BindingsAbi3(3, 7), true);
    let moved = text(
        &with_manifest("py/Cargo.toml", false),
        &BridgeModel::BindingsAbi3(3, 7),
        true,
    );
    assert_eq!(
        moved,
        plain
            .replace(
                "args: --release --out dist\n",
                "args: --release --out dist --manifest-path py/Cargo.toml\n"
            )
            .replace(
                "args: --out dist\n",
                "args: --out dist --manifest-path py/Cargo.toml\n"
            )
    );
    assert_eq!(moved.matches("--manifest-path py/Cargo.toml").count(), 4);
}

#[test]
fn manifest_in_the_current_directory_under_another_name() {
    let text = text(&with_manifest("Other.toml", true), &binding(), false);
    assert!(text.contains("--manifest-path Other.toml\n"));
    assert!(text.contains("          cd  && pytest\n"));
    assert!(text.contains("            cd  && pytest\n"));
}

#[test]
fn tests_beside_a_manifest_without_parent_run_where_the_job_runs() {
    let plain = GenerateCI {
        platforms: vec![Platform::All],
        pytest: true,
        ..Default::default()
    };
    let plain = text(&plain, &binding(), true);
    for path in ["", "/"] {
        let config = GenerateCI {
            platforms: vec![Platform::All],
            ..with_manifest(path, true)
        };
        assert_eq!(
            config.manifest(),
            Manifest::Custom {
                path: path.to_string(),
                parent: None,
            }
        );
        let bridge = binding();
        let settings = config.settings("example", &bridge, config.manifest());
        assert_eq!(settings.manifest_path, Some(path.to_string()));
        assert_eq!(settings.test_dir, None);
        let moved = text(&config, &binding(), true);
        let switch = format!(" --manifest-path {}\n", path);
        let expected = plain
            .replace(
                "args: --release --out dist --find-interpreter\n",
                &format!("args: --release --out dist --find-interpreter{}", switch),
            )
            .replace(
                "args: --release --out dist -i 3.10\n",
                &format!("args: --release --out dist -i 3.10{}", switch),
            )
            .replace("args: --out dist\n", &format!("args: --out dist{}", switch));
        assert_eq!(moved, expected);
        assert_eq!(moved.matches("--manifest-path").count(), 5);
        assert!(!moved.contains("cd "));
        assert_eq!(moved.matches("          pytest\n").count(), 4);
        assert_eq!(moved.matches("          python -m pytest\n").count(), 1);
        assert_eq!(
            config.generate("example", &binding(), true, &invocation()),
            Ok(moved.clone())
        );
        assert_eq!(
            config
                .execute("example", &binding(), true, &invocation())
                .map(|output| output.text),
            Ok(moved)
        );
    }
}

#[test]
fn generation_never_fails() {
    let bridges = [
        BridgeModel::Bin(None),
        BridgeModel::Bin(Some(("pyo3".to_string(), 0))),
        binding(),
        BridgeModel::BindingsAbi3(3, 7),
        BridgeModel::Cffi,
        BridgeModel::UniFfi,
    ];
    let paths = [None, Some(""), Some("/"), Some("Cargo.toml"), Some("a/Cargo.toml"), Some("..")];
    let requests = [
        vec![],
        vec![Platform::All],
        vec![Platform::Emscripten],
        vec![Platform::Windows, Platform::Linux, Platform::Windows],
    ];
    for bridge in &bridges {
        for path in &paths {
            for platforms in &requests {
                for flags in 0..8 {
                    let config = GenerateCI {
                        manifest_path: path.map(|p| p.to_string()),
                        platforms: platforms.clone(),
                        pytest: flags & 1 != 0,
                        zig: flags & 2 != 0,
                        ..Default::default()
                    };
                    let sdist = flags & 4 != 0;
                    let text = config.generate_github("example", bridge, sdist, &invocation());
                    assert!(text.is_ok());
                    assert_eq!(config.generate("example", bridge, sdist, &invocation()), text);
                    let output = config.execute("example", bridge, sdist, &invocation());
                    assert_eq!(output.map(|o| o.text), text);
                    let text = text.unwrap();
                    assert!(text.ends_with("          args: --skip-existing *\n") || text.contains("wasm/*.whl"));
                    assert_eq!(text.matches("\n  release:\n").count(), 1);
                    assert_eq!(text.contains("\n  sdist:\n"), sdist);
                }
            }
        }
    }
}

#[test]
fn manifest_without_parent_where_no_test_runs() {
    let untested = with_manifest("/", false);
    let text = text(&untested, &binding(), true);
    assert_eq!(text.matches("--manifest-path /\n").count(), 4);
    assert!(!text.contains("cd "));
    let no_job = GenerateCI {
        platforms: vec![Platform::Emscripten],
        ..with_manifest("/", true)
    };
    let text = no_job
        .generate_github("example", &BridgeModel::Bin(None), true, &invocation())
        .unwrap();
    assert!(text.contains("args: --out dist --manifest-path /\n"));
    assert!(text.contains("needs: [sdist]\n"));
}

#[test]
fn dash_stands_for_the_standard_output() {
    assert_eq!(GenerateCI::default().destination(), Destination::Stdout);
    let to_file = GenerateCI {
        output: ".github/workflows/CI.yml".to_string(),
        ..Default::default()
    };
    assert_eq!(
        to_file.destination(),
        Destination::File(".github/workflows/CI.yml".to_string())
    );
    let dash_dir = GenerateCI {
        output: "./-".to_string(),
        ..Default::default()
    };
    assert_eq!(dash_dir.destination(), Destination::File("./-".to_string()));
}

#[test]
fn execute_hands_back_text_and_destination() {
    let config = GenerateCI {
        output: "ci.yml".to_string(),
        pytest: true,
        ..Default::default()
    };
    let output = config
        .execute("example", &binding(), true, &invocation())
        .unwrap();
    assert_eq!(
        output,
        Output {
            destination: Destination::File("ci.yml".to_string()),
            text: text(&config, &binding(), true),
        }
    );
    let output = GenerateCI::default()
        .execute("example", &binding(), false, &invocation())
        .unwrap();
    assert_eq!(output.destination, Destination::Stdout);
    assert_eq!(output.text, text(&GenerateCI::default(), &binding(), false));
}

#[test]
fn project_name_is_what_the_tests_install() {
    let config = GenerateCI {
        platforms: vec![Platform::All],
        pytest: true,
        ..Default::default()
    };
    let text = config
        .generate_github("my-project", &binding(), false, &invocation())
        .unwrap();
    assert_eq!(
        text.matches("pip install my-project --find-links dist --force-reinstall\n")
            .count(),
        4
    );
    assert_eq!(
        text.matches("pip3 install my-project --find-links dist --force-reinstall\n")
            .count(),
        1
    );
}

#[test]
fn interpreter_arguments_follow_the_bridge() {
    let all = GenerateCI {
        platforms: vec![Platform::All],
        ..Default::default()
    };
    let find = "args: --release --out dist --find-interpreter\n";
    let pin = "args: --release --out dist -i 3.10\n";
    let none = "args: --release --out dist\n";
    let count = |text: &str| {
        (
            text.matches(find).count(),
            text.matches(pin).count(),
            text.matches(none).count(),
        )
    };
    assert_eq!(count(&text(&all, &binding(), false)), (3, 1, 0));
    assert_eq!(count(&text(&all, &BridgeModel::Cffi, false)), (3, 1, 0));
    assert_eq!(count(&text(&all, &BridgeModel::UniFfi, false)), (3, 1, 0));
    assert_eq!(count(&text(&all, &BridgeModel::BindingsAbi3(3, 7), false)), (0, 0, 4));
    assert_eq!(count(&text(&all, &BridgeModel::Bin(None), false)), (0, 0, 3));
    assert_eq!(
        count(&text(&all, &BridgeModel::Bin(Some(("pyo3".to_string(), 0))), false)),
        (3, 0, 0)
    );
    let tested = GenerateCI {
        pytest: true,
        ..all
    };
    assert_eq!(count(&text(&tested, &BridgeModel::Bin(None), false)), (3, 0, 0));
    assert_eq!(count(&text(&tested, &BridgeModel::BindingsAbi3(3, 7), false)), (0, 0, 4));
}

#[test]
fn emscripten_with_tests_beside_a_moved_manifest() {
    let config = GenerateCI {
        platforms: vec![Platform::Emscripten],
        ..with_manifest("pkg/Cargo.toml", true)
    };
    let text = text(&config, &binding(), true);
    let (_, jobs) = text.split_once("\njobs:\n").unwrap();
    let expected = r#"  emscripten:
    runs-on: ubuntu-latest
    steps:
      - uses: actions/checkout@v3
      - uses: actions/setup-python@v4
        with:
          python-version: '3.10'
      - run: pip install pyodide-build
      - shell: bash
        run: echo EMSCRIPTEN_VERSION=$(pyodide config get emscripten_version) >> $GITHUB_ENV
      - uses: mymindstorm/setup-emsdk@v12
        with:
          version: ${{ env.EMSCRIPTEN_VERSION }}
          actions-cache-folder: emsdk-cache
      - name: Build wheels
        uses: PyO3/maturin-action@v1
        with:
          target: wasm32-unknown-emscripten
          args: --release --out dist -i 3.10 --manifest-path pkg/Cargo.toml
          rust-toolchain: nightly
      - name: Upload wheels
        uses: actions/upload-artifact@v3
        with:
          name: wasm-wheels
          path: dist
      - uses: actions/setup-node@v3
        with:
          node-version: '18'
      - name: pytest
        run: |
          set -e
          pyodide venv .venv
          source .venv/bin/activate
          pip install example --find-links dist --force-reinstall
          pip install pytest
          cd pkg && python -m pytest

  sdist:
    runs-on: ubuntu-latest
    steps:
      - uses: actions/checkout@v3
      - name: Build sdist
        uses: PyO3/maturin-action@v1
        with:
          command: sdist
          args: --out dist --manifest-path pkg/Cargo.toml
      - name: Upload sdist
        uses: actions/upload-artifact@v3
        with:
          name: wheels
          path: dist

  release:
    name: Release
    runs-on: ubuntu-latest
    if: "startsWith(github.ref, 'refs/tags/')"
    needs: [emscripten, sdist]
    steps:
      - uses: actions/download-artifact@v3
        with:
          name: wheels
      - name: Publish to PyPI
        uses: PyO3/maturin-action@v1
        env:
          MATURIN_PYPI_TOKEN: ${{ secrets.PYPI_API_TOKEN }}
        with:
          command: upload
          args: --skip-existing *
      - uses: actions/download-artifact@v3
        with:
          name: wasm-wheels
          path: wasm
      - name: Upload to GitHub Release
        uses: softprops/action-gh-release@v1
        with:
          files: |
            wasm/*.whl
          prerelease: ${{ contains(github.ref, 'alpha') || contains(github.ref, 'beta') }}
"#;
    assert_eq!(jobs, expected);
}

#[test]
fn linux_tests_beside_a_moved_manifest() {
    let config = GenerateCI {
        platforms: vec![Platform::Linux],
        zig: true,
        ..with_manifest("pkg/Cargo.toml", true)
    };
    let text = text(&config, &BridgeModel::Bin(None), false);
    let (_, jobs) = text.split_once("\njobs:\n").unwrap();
    let expected = r#"  linux:
    runs-on: ubuntu-latest
    strategy:
      matrix:
        target: [x86_64, x86, aarch64, armv7, s390x, ppc64le]
    steps:
      - uses: actions/checkout@v3
      - uses: actions/setup-python@v4
        with:
          python-version: '3.10'
      - name: Build wheels
        uses: PyO3/maturin-action@v1
        with:
          target: ${{ matrix.target }}
          args: --release --out dist --find-interpreter --manifest-path pkg/Cargo.toml --zig
          manylinux: auto
      - name: Upload wheels
        uses: actions/upload-artifact@v3
        with:
          name: wheels
          path: dist
      - name: pytest
        if: ${{ startsWith(matrix.target, 'x86_64') }}
        shell: bash
        run: |
          set -e
          pip install example --find-links dist --force-reinstall
          pip install pytest
          cd pkg && pytest
      - name: pytest
        if: ${{ !startsWith(matrix.target, 'x86') && matrix.target != 'ppc64' }}
        uses: uraimo/run-on-arch-action@v2.5.0
        with:
          arch: ${{ matrix.target }}
          distro: ubuntu22.04
          githubToken: ${{ github.token }}
          install: |
            apt-get update
            apt-get install -y --no-install-recommends python3 python3-pip
            pip3 install -U pip pytest
          run: |
            set -e
            pip3 install example --find-links dist --force-reinstall
            cd pkg && pytest

  release:
    name: Release
    runs-on: ubuntu-latest
    if: "startsWith(github.ref, 'refs/tags/')"
    needs: [linux]
    steps:
      - uses: actions/download-artifact@v3
        with:
          name: wheels
      - name: Publish to PyPI
        uses: PyO3/maturin-action@v1
        env:
          MATURIN_PYPI_TOKEN: ${{ secrets.PYPI_API_TOKEN }}
        with:
          command: upload
          args: --skip-existing *
"#;
    assert_eq!(jobs, expected);
}

#[test]
fn manifest_location_of_the_options() {
    assert_eq!(GenerateCI::default().manifest(), Manifest::Default);
    assert_eq!(with_manifest("Cargo.toml", true).manifest(), Manifest::Default);
    assert_eq!(
        with_manifest("./Cargo.toml", false).manifest(),
        Manifest::Custom {
            path: "./Cargo.toml".to_string(),
            parent: Some(".".to_string()),
        }
    );
    assert_eq!(
        with_manifest("Other.toml", false).manifest(),
        Manifest::Custom {
            path: "Other.toml".to_string(),
            parent: Some("".to_string()),
        }
    );
    assert_eq!(
        with_manifest("/work/py/Cargo.toml", false).manifest(),
        Manifest::Custom {
            path: "/work/py/Cargo.toml".to_string(),
            parent: Some("/work/py".to_string()),
        }
    );
}

#[test]
fn workflow_follows_the_manifest_location_it_is_given() {
    let config = GenerateCI {
        platforms: vec![Platform::Macos],
        pytest: true,
        ..Default::default()
    };
    let located = Manifest::Custom {
        path: "a/b.toml".to_string(),
        parent: Some("c".to_string()),
    };
    let workflow = config.github_workflow("example", &binding(), true, &invocation(), located);
    let text = workflow.render();
    assert!(text.contains("args: --release --out dist --find-interpreter --manifest-path a/b.toml\n"));
    assert!(text.contains("args: --out dist --manifest-path a/b.toml\n"));
    assert!(text.contains("          cd c && pytest\n"));
    let bridge = binding();
    let settings = config.settings("example", &bridge, Manifest::Default);
    assert_eq!(settings.manifest_path, None);
    assert_eq!(settings.test_dir, None);
    assert_eq!(settings.project_name, "example");
    assert!(settings.pytest && !settings.zig);
    let nowhere = Manifest::Custom {
        path: "b.toml".to_string(),
        parent: None,
    };
    let text = config
        .github_workflow("example", &binding(), true, &invocation(), nowhere.clone())
        .render();
    assert!(text.contains("--find-interpreter --manifest-path b.toml\n"));
    assert!(text.contains("          pip install pytest\n          pytest\n"));
    assert!(!text.contains("cd "));
    let untested = GenerateCI {
        pytest: false,
        ..config
    };
    let workflow = untested.github_workflow("example", &binding(), false, &invocation(), nowhere);
    assert!(workflow.render().contains("--manifest-path b.toml\n"));
    assert!(!workflow.render().contains("name: pytest"));
}
