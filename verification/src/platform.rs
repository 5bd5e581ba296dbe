//! Target platforms, the CI providers a workflow can be generated for, and
//! the resolution of a requested list of platforms.

use vstd::prelude::*;
use crate::bridge::{BridgeModel, BridgeModelView};

verus! {

/// CI providers.
#[derive(Debug, Clone, Copy, PartialEq, Eq, Structural)]
pub enum Provider {
    /// GitHub Actions.
    GitHub,
}

/// A platform to build wheels for, or the catch-all [`Platform::All`].
///
/// The variants are declared in canonical order.
#[derive(Debug, Clone, Copy, PartialEq, Eq, Structural, PartialOrd, Ord)]
pub enum Platform {
    /// Every platform the project can be built for.
    All,
    /// Linux
    Linux,
    /// Windows
    Windows,
    /// macOS
    Macos,
    /// Emscripten
    Emscripten,
}

impl Platform {
    /// The platforms that are built when none is requested.
    pub open spec fn spec_defaults() -> Seq<Platform> {
        seq![Platform::Linux, Platform::Windows, Platform::Macos]
    }

    /// Every concrete platform, in canonical order.
    pub open spec fn spec_all() -> Seq<Platform> {
        seq![Platform::Linux, Platform::Windows, Platform::Macos, Platform::Emscripten]
    }

    /// The place of the platform in the canonical order.
    pub open spec fn rank(self) -> int {
        match self {
            Platform::All => 0,
            Platform::Linux => 1,
            Platform::Windows => 2,
            Platform::Macos => 3,
            Platform::Emscripten => 4,
        }
    }

    /// The lower-case name of the platform.
    pub open spec fn name(self) -> Seq<char> {
        match self {
            Platform::All => "all"@,
            Platform::Linux => "linux"@,
            Platform::Windows => "windows"@,
            Platform::Macos => "macos"@,
            Platform::Emscripten => "emscripten"@,
        }
    }

    /// The platforms that are built when none is requested.
    pub fn defaults() -> (r: Vec<Platform>)
        ensures
            r@ == Self::spec_defaults(),
    {
        vec![Platform::Linux, Platform::Windows, Platform::Macos]
    }

    /// Every concrete platform, in canonical order.
    pub fn all() -> (r: Vec<Platform>)
        ensures
            r@ == Self::spec_all(),
    {
        vec![Platform::Linux, Platform::Windows, Platform::Macos, Platform::Emscripten]
    }

    /// The lower-case name of the platform.
    pub fn as_str(&self) -> (r: &'static str)
        ensures
            r@ == self.name(),
    {
        match self {
            Platform::All => "all",
            Platform::Linux => "linux",
            Platform::Windows => "windows",
            Platform::Macos => "macos",
            Platform::Emscripten => "emscripten",
        }
    }
}

/// Whether the request `entry` asks for the concrete platform `p`: a platform
/// asks for itself, and `All` asks for every platform that the artifact can
/// be built for, which leaves out Emscripten for a binary.
pub open spec fn asks_for(entry: Platform, bridge: BridgeModelView, p: Platform) -> bool {
    if entry == Platform::All {
        p == Platform::Linux || p == Platform::Windows || p == Platform::Macos || (p
            == Platform::Emscripten && !bridge.is_bin())
    } else {
        entry == p
    }
}

/// Whether some entry of `requested` asks for `p`.
pub open spec fn requests(requested: Seq<Platform>, bridge: BridgeModelView, p: Platform) -> bool {
    exists|i: int| 0 <= i < requested.len() && asks_for(#[trigger] requested[i], bridge, p)
}

/// Whether a job is built for `p`: `p` is a concrete platform that was asked
/// for, and it is not Emscripten for a binary, however it was asked for.
pub open spec fn selected(requested: Seq<Platform>, bridge: BridgeModelView, p: Platform) -> bool {
    &&& p != Platform::All
    &&& requests(requested, bridge, p)
    &&& !(bridge.is_bin() && p == Platform::Emscripten)
}

/// `p` alone if it is selected, else nothing.
pub open spec fn pick(requested: Seq<Platform>, bridge: BridgeModelView, p: Platform) -> Seq<
    Platform,
> {
    if selected(requested, bridge, p) {
        seq![p]
    } else {
        Seq::empty()
    }
}

/// The platforms that jobs are built for: the selected ones, each once, in
/// canonical order.
pub open spec fn resolved_platforms(requested: Seq<Platform>, bridge: BridgeModelView) -> Seq<
    Platform,
> {
    pick(requested, bridge, Platform::Linux) + pick(requested, bridge, Platform::Windows) + pick(
        requested,
        bridge,
        Platform::Macos,
    ) + pick(requested, bridge, Platform::Emscripten)
}

fn asks(entry: Platform, bridge: &BridgeModel, p: Platform) -> (r: bool)
    ensures
        r == asks_for(entry, bridge@, p),
{
    match entry {
        Platform::All => match p {
            Platform::All => false,
            Platform::Linux => true,
            Platform::Windows => true,
            Platform::Macos => true,
            Platform::Emscripten => !bridge.is_bin(),
        },
        _ => entry == p,
    }
}

/// Resolves the requested platforms into the platforms to build for.
pub fn resolve_platforms(requested: &Vec<Platform>, bridge: &BridgeModel) -> (r: Vec<Platform>)
    ensures
        r@ == resolved_platforms(requested@, bridge@),
{
    let mut linux = false;
    let mut windows = false;
    let mut macos = false;
    let mut emscripten = false;
    let mut i: usize = 0;
    while i < requested.len()
        invariant
            i <= requested.len(),
            linux == requests(requested@.take(i as int), bridge@, Platform::Linux),
            windows == requests(requested@.take(i as int), bridge@, Platform::Windows),
            macos == requests(requested@.take(i as int), bridge@, Platform::Macos),
            emscripten == requests(requested@.take(i as int), bridge@, Platform::Emscripten),
        decreases requested.len() - i,
    {
        let entry = requested[i];
        proof {
            lemma_requests_push(requested@, i as int, bridge@, Platform::Linux);
            lemma_requests_push(requested@, i as int, bridge@, Platform::Windows);
            lemma_requests_push(requested@, i as int, bridge@, Platform::Macos);
            lemma_requests_push(requested@, i as int, bridge@, Platform::Emscripten);
        }
        linux = linux || asks(entry, bridge, Platform::Linux);
        windows = windows || asks(entry, bridge, Platform::Windows);
        macos = macos || asks(entry, bridge, Platform::Macos);
        emscripten = emscripten || asks(entry, bridge, Platform::Emscripten);
        i += 1;
    }
    assert(requested@.take(requested.len() as int) == requested@);
    let mut out: Vec<Platform> = Vec::new();
    if linux {
        out.push(Platform::Linux);
    }
    if windows {
        out.push(Platform::Windows);
    }
    if macos {
        out.push(Platform::Macos);
    }
    if emscripten && !bridge.is_bin() {
        out.push(Platform::Emscripten);
    }
    assert(out@ =~= resolved_platforms(requested@, bridge@));
    out
}

/// One more entry is asked for what the entries before it ask for, and for
/// what it asks for itself.
proof fn lemma_requests_push(requested: Seq<Platform>, i: int, bridge: BridgeModelView, p: Platform)
    requires
        0 <= i < requested.len(),
    ensures
        requests(requested.take(i + 1), bridge, p) == (requests(requested.take(i), bridge, p)
            || asks_for(requested[i], bridge, p)),
{
    let before = requested.take(i);
    let after = requested.take(i + 1);
    if requests(after, bridge, p) {
        let j = choose|j: int| 0 <= j < after.len() && asks_for(#[trigger] after[j], bridge, p);
        if j < i {
            assert(asks_for(before[j], bridge, p));
        }
    }
    if requests(before, bridge, p) {
        let j = choose|j: int| 0 <= j < before.len() && asks_for(#[trigger] before[j], bridge, p);
        assert(asks_for(after[j], bridge, p));
    }
    if asks_for(requested[i], bridge, p) {
        assert(asks_for(after[i], bridge, p));
    }
}

/// The resolved platforms stand in canonical order without repetition, and
/// they are exactly the selected ones: never `All`, and never Emscripten
/// for a binary.
pub proof fn lemma_resolved_canonical(requested: Seq<Platform>, bridge: BridgeModelView)
    ensures
        forall|i: int, j: int|
            0 <= i < j < resolved_platforms(requested, bridge).len() ==> resolved_platforms(
                requested,
                bridge,
            )[i].rank() < resolved_platforms(requested, bridge)[j].rank(),
        forall|p: Platform|
            resolved_platforms(requested, bridge).contains(p) <==> selected(requested, bridge, p),
        resolved_platforms(requested, bridge).no_duplicates(),
        !resolved_platforms(requested, bridge).contains(Platform::All),
        bridge.is_bin() ==> !resolved_platforms(requested, bridge).contains(Platform::Emscripten),
{
    let r = resolved_platforms(requested, bridge);
    let linux = pick(requested, bridge, Platform::Linux);
    let windows = pick(requested, bridge, Platform::Windows);
    let macos = pick(requested, bridge, Platform::Macos);
    let emscripten = pick(requested, bridge, Platform::Emscripten);
    assert forall|p: Platform| r.contains(p) <==> selected(requested, bridge, p) by {
        if selected(requested, bridge, p) {
            let at = match p {
                Platform::All => 0,
                Platform::Linux => 0,
                Platform::Windows => linux.len() as int,
                Platform::Macos => (linux.len() + windows.len()) as int,
                Platform::Emscripten => (linux.len() + windows.len() + macos.len()) as int,
            };
            assert(r[at] == p);
        }
    }
}

/// A request for `All` is a request for every platform that the artifact
/// can be built for: for Linux, Windows and macOS, and but for a binary for
/// Emscripten too. What else is requested beside `All` changes nothing.
pub proof fn lemma_all_expands(requested: Seq<Platform>, bridge: BridgeModelView)
    requires
        requested.contains(Platform::All),
    ensures
        resolved_platforms(requested, bridge) == if bridge.is_bin() {
            Platform::spec_defaults()
        } else {
            Platform::spec_all()
        },
{
    let i = choose|i: int| 0 <= i < requested.len() && requested[i] == Platform::All;
    assert(asks_for(requested[i], bridge, Platform::Linux));
    assert(asks_for(requested[i], bridge, Platform::Windows));
    assert(asks_for(requested[i], bridge, Platform::Macos));
    if !bridge.is_bin() {
        assert(asks_for(requested[i], bridge, Platform::Emscripten));
    }
    assert(resolved_platforms(requested, bridge) =~= if bridge.is_bin() {
        Platform::spec_defaults()
    } else {
        Platform::spec_all()
    });
}

/// Without a request for `All`, a platform is built for exactly if it is
/// among the requested ones, Emscripten for a binary excepted.
pub proof fn lemma_explicit_requests(requested: Seq<Platform>, bridge: BridgeModelView, p: Platform)
    requires
        !requested.contains(Platform::All),
        p != Platform::All,
    ensures
        resolved_platforms(requested, bridge).contains(p) <==> requested.contains(p) && !(
        bridge.is_bin() && p == Platform::Emscripten),
{
    lemma_resolved_canonical(requested, bridge);
    if requested.contains(p) {
        let i = choose|i: int| 0 <= i < requested.len() && requested[i] == p;
        assert(asks_for(requested[i], bridge, p));
    }
    if requests(requested, bridge, p) {
        let i = choose|i: int|
            0 <= i < requested.len() && asks_for(#[trigger] requested[i], bridge, p);
        assert(requested.contains(requested[i]));
    }
}

/// Different platforms have different names.
pub proof fn lemma_names_differ(p: Platform, q: Platform)
    requires
        p != q,
    ensures
        p.name() != q.name(),
{
    reveal_strlit("all");
    reveal_strlit("linux");
    reveal_strlit("windows");
    reveal_strlit("macos");
    reveal_strlit("emscripten");
    assert("all"@.len() == 3);
    assert("linux"@.len() == 5 && "linux"@[0] == 'l');
    assert("windows"@.len() == 7);
    assert("macos"@.len() == 5 && "macos"@[0] == 'm');
    assert("emscripten"@.len() == 10);
}

} // verus!
