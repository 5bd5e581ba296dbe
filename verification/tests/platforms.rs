//! Resolution of the requested platforms.

use generate_ci::platform::resolve_platforms;
use generate_ci::{BridgeModel, Platform, Provider};

fn binding() -> BridgeModel {
    BridgeModel::Bindings("pyo3".to_string(), 7)
}

#[test]
fn defaults_are_linux_windows_macos() {
    assert_eq!(
        Platform::defaults(),
        vec![Platform::Linux, Platform::Windows, Platform::Macos]
    );
}

#[test]
fn all_lists_every_concrete_platform_in_order() {
    assert_eq!(
        Platform::all(),
        vec![
            Platform::Linux,
            Platform::Windows,
            Platform::Macos,
            Platform::Emscripten
        ]
    );
}

#[test]
fn platform_names_are_lower_case() {
    assert_eq!(Platform::All.as_str(), "all");
    assert_eq!(Platform::Linux.as_str(), "linux");
    assert_eq!(Platform::Windows.as_str(), "windows");
    assert_eq!(Platform::Macos.as_str(), "macos");
    assert_eq!(Platform::Emscripten.as_str(), "emscripten");
}

#[test]
fn platforms_are_ordered_as_declared() {
    assert!(Platform::All < Platform::Linux);
    assert!(Platform::Linux < Platform::Windows);
    assert!(Platform::Windows < Platform::Macos);
    assert!(Platform::Macos < Platform::Emscripten);
}

#[test]
fn provider_is_github() {
    assert_eq!(Provider::GitHub, Provider::GitHub);
    assert_eq!(format!("{:?}", Provider::GitHub), "GitHub");
}

#[test]
fn all_expands_to_four_platforms_for_a_binding() {
    for bridge in [
        binding(),
        BridgeModel::BindingsAbi3(3, 7),
        BridgeModel::Cffi,
        BridgeModel::UniFfi,
    ] {
        assert_eq!(
            resolve_platforms(&vec![Platform::All], &bridge),
            vec![
                Platform::Linux,
                Platform::Windows,
                Platform::Macos,
                Platform::Emscripten
            ]
        );
    }
}

#[test]
fn all_expands_to_three_platforms_for_a_binary() {
    for bridge in [
        BridgeModel::Bin(None),
        BridgeModel::Bin(Some(("pyo3".to_string(), 0))),
    ] {
        assert_eq!(
            resolve_platforms(&vec![Platform::All], &bridge),
            vec![Platform::Linux, Platform::Windows, Platform::Macos]
        );
    }
}

#[test]
fn emscripten_is_dropped_for_a_binary_however_requested() {
    let bin = BridgeModel::Bin(None);
    assert_eq!(
        resolve_platforms(&vec![Platform::Emscripten], &bin),
        Vec::<Platform>::new()
    );
    assert_eq!(
        resolve_platforms(&vec![Platform::Emscripten, Platform::Linux], &bin),
        vec![Platform::Linux]
    );
    assert_eq!(
        resolve_platforms(&vec![Platform::All, Platform::Emscripten], &bin),
        vec![Platform::Linux, Platform::Windows, Platform::Macos]
    );
    let linked = BridgeModel::Bin(Some(("pyo3".to_string(), 0)));
    assert_eq!(
        resolve_platforms(&vec![Platform::Emscripten, Platform::Macos], &linked),
        vec![Platform::Macos]
    );
}

#[test]
fn explicit_platforms_pass_through() {
    assert_eq!(
        resolve_platforms(&vec![Platform::Emscripten], &binding()),
        vec![Platform::Emscripten]
    );
    assert_eq!(
        resolve_platforms(&vec![Platform::Windows], &binding()),
        vec![Platform::Windows]
    );
}

#[test]
fn duplicates_are_removed_and_order_is_canonical() {
    assert_eq!(
        resolve_platforms(
            &vec![
                Platform::Emscripten,
                Platform::Macos,
                Platform::Linux,
                Platform::Macos,
                Platform::Emscripten,
                Platform::Windows,
                Platform::Linux,
            ],
            &binding()
        ),
        vec![
            Platform::Linux,
            Platform::Windows,
            Platform::Macos,
            Platform::Emscripten
        ]
    );
    assert_eq!(
        resolve_platforms(&vec![Platform::Macos, Platform::Linux], &binding()),
        vec![Platform::Linux, Platform::Macos]
    );
}

#[test]
fn all_beside_other_requests_changes_nothing() {
    assert_eq!(
        resolve_platforms(
            &vec![Platform::Windows, Platform::All, Platform::Windows],
            &binding()
        ),
        Platform::all()
    );
    assert_eq!(
        resolve_platforms(&vec![Platform::All, Platform::All], &BridgeModel::Bin(None)),
        Platform::defaults()
    );
}

#[test]
fn no_request_gives_no_platform() {
    assert_eq!(
        resolve_platforms(&Vec::new(), &binding()),
        Vec::<Platform>::new()
    );
}

#[test]
fn bridge_models_are_classified() {
    let bin = BridgeModel::Bin(None);
    let linked = BridgeModel::Bin(Some(("pyo3".to_string(), 0)));
    let abi3 = BridgeModel::BindingsAbi3(3, 7);
    assert!(bin.is_bin() && linked.is_bin());
    assert!(!binding().is_bin() && !abi3.is_bin());
    assert!(!BridgeModel::Cffi.is_bin() && !BridgeModel::UniFfi.is_bin());
    assert!(abi3.is_abi3());
    assert!(!bin.is_abi3() && !linked.is_abi3() && !binding().is_abi3());
    assert!(!BridgeModel::Cffi.is_abi3() && !BridgeModel::UniFfi.is_abi3());
    assert!(!bin.requires_python());
    assert!(linked.requires_python());
    assert!(binding().requires_python());
    assert!(abi3.requires_python());
    assert!(BridgeModel::Cffi.requires_python());
    assert!(BridgeModel::UniFfi.requires_python());
}
