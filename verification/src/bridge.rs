//! How the compiled artifact is bound to Python.

use vstd::prelude::*;

verus! {

/// The way the Rust code of a project is exposed to Python.
#[derive(Debug, Clone, PartialEq, Eq)]
pub enum BridgeModel {
    /// A native binary. It holds the bindings crate and its major version
    /// if the binary links to Python, `None` if it stands alone.
    Bin(Option<(String, usize)>),
    /// A library built against a bindings crate, given by name and major
    /// version.
    Bindings(String, usize),
    /// As `Bindings`, built against the stable ABI from the given minimum
    /// Python version (major, minor) on.
    BindingsAbi3(u8, u8),
    /// A native library that Python loads through cffi.
    Cffi,
    /// A native library that Python loads through uniffi.
    UniFfi,
}

/// View of a [`BridgeModel`].
pub enum BridgeModelView {
    Bin(Option<(Seq<char>, usize)>),
    Bindings(Seq<char>, usize),
    BindingsAbi3(u8, u8),
    Cffi,
    UniFfi,
}

impl DeepView for BridgeModel {
    type V = BridgeModelView;

    open spec fn deep_view(&self) -> BridgeModelView {
        match self {
            BridgeModel::Bin(Some((name, version))) => BridgeModelView::Bin(
                Some((name@, *version)),
            ),
            BridgeModel::Bin(None) => BridgeModelView::Bin(None),
            BridgeModel::Bindings(name, version) => BridgeModelView::Bindings(name@, *version),
            BridgeModel::BindingsAbi3(major, minor) => BridgeModelView::BindingsAbi3(
                *major,
                *minor,
            ),
            BridgeModel::Cffi => BridgeModelView::Cffi,
            BridgeModel::UniFfi => BridgeModelView::UniFfi,
        }
    }
}

impl View for BridgeModel {
    type V = BridgeModelView;

    open spec fn view(&self) -> BridgeModelView {
        self.deep_view()
    }
}

impl BridgeModelView {
    /// The artifact is a binary.
    pub open spec fn is_bin(self) -> bool {
        self is Bin
    }

    /// The artifact is built against the stable ABI.
    pub open spec fn is_abi3(self) -> bool {
        self is BindingsAbi3
    }

    /// Building or installing the artifact takes a Python interpreter: so it
    /// is for every model but a binary that stands alone.
    pub open spec fn requires_python(self) -> bool {
        match self {
            BridgeModelView::Bin(None) => false,
            BridgeModelView::Bin(Some(_)) => true,
            BridgeModelView::Bindings(_, _) => true,
            BridgeModelView::BindingsAbi3(_, _) => true,
            BridgeModelView::Cffi => true,
            BridgeModelView::UniFfi => true,
        }
    }
}

impl BridgeModel {
    /// The artifact is a binary.
    pub fn is_bin(&self) -> (r: bool)
        ensures
            r == self@.is_bin(),
    {
        match self {
            BridgeModel::Bin(_) => true,
            BridgeModel::Bindings(_, _) => false,
            BridgeModel::BindingsAbi3(_, _) => false,
            BridgeModel::Cffi => false,
            BridgeModel::UniFfi => false,
        }
    }

    /// The artifact is built against the stable ABI.
    pub fn is_abi3(&self) -> (r: bool)
        ensures
            r == self@.is_abi3(),
    {
        match self {
            BridgeModel::Bin(_) => false,
            BridgeModel::Bindings(_, _) => false,
            BridgeModel::BindingsAbi3(_, _) => true,
            BridgeModel::Cffi => false,
            BridgeModel::UniFfi => false,
        }
    }

    /// Building or installing the artifact takes a Python interpreter.
    pub fn requires_python(&self) -> (r: bool)
        ensures
            r == self@.requires_python(),
    {
        match self {
            BridgeModel::Bin(None) => false,
            BridgeModel::Bin(Some(_)) => true,
            BridgeModel::Bindings(_, _) => true,
            BridgeModel::BindingsAbi3(_, _) => true,
            BridgeModel::Cffi => true,
            BridgeModel::UniFfi => true,
        }
    }
}

} // verus!
