use vstd::prelude::*;

verus! {

/// The extensions the runtime installs into the script engine.
#[derive(Debug, Clone, Copy, PartialEq, Eq, Structural)]
pub enum ExtensionId {
    DenoWebidl,
    DenoConsole,
    DenoUrl,
    DenoWeb,
    DenoCrypto,
    DenoFetch,
    FetchEvent,
    ScheduledEvent,
    Runtime,
    Permissions,
}

/// The order in which the extensions are installed: each one after those it
/// depends on.
pub open spec fn extension_order_spec() -> Seq<ExtensionId> {
    seq![
        ExtensionId::DenoWebidl,
        ExtensionId::DenoConsole,
        ExtensionId::DenoUrl,
        ExtensionId::DenoWeb,
        ExtensionId::DenoCrypto,
        ExtensionId::DenoFetch,
        ExtensionId::FetchEvent,
        ExtensionId::ScheduledEvent,
        ExtensionId::Runtime,
        ExtensionId::Permissions,
    ]
}

pub fn extension_order() -> (order: Vec<ExtensionId>)
    ensures
        order@ == extension_order_spec(),
{
    let mut order = Vec::new();
    order.push(ExtensionId::DenoWebidl);
    order.push(ExtensionId::DenoConsole);
    order.push(ExtensionId::DenoUrl);
    order.push(ExtensionId::DenoWeb);
    order.push(ExtensionId::DenoCrypto);
    order.push(ExtensionId::DenoFetch);
    order.push(ExtensionId::FetchEvent);
    order.push(ExtensionId::ScheduledEvent);
    order.push(ExtensionId::Runtime);
    order.push(ExtensionId::Permissions);
    order
}

/// An extension as the runtime configures it: which one it is, and the
/// JavaScript sources it brings (classic scripts, ES modules, and the module
/// it starts from).
#[derive(Debug, Clone)]
pub struct ExtensionSpec {
    pub id: ExtensionId,
    pub js_files: Vec<String>,
    pub esm_files: Vec<String>,
    pub esm_entry_point: Option<String>,
}

pub struct ExtensionView {
    pub id: ExtensionId,
    pub js_files: Seq<Seq<char>>,
    pub esm_files: Seq<Seq<char>>,
    pub esm_entry_point: Option<Seq<char>>,
}

impl View for ExtensionSpec {
    type V = ExtensionView;

    open spec fn view(&self) -> ExtensionView {
        ExtensionView {
            id: self.id,
            js_files: self.js_files.deep_view(),
            esm_files: self.esm_files.deep_view(),
            esm_entry_point: self.esm_entry_point.deep_view(),
        }
    }
}

pub open spec fn extensions_view(exts: Seq<ExtensionSpec>) -> Seq<ExtensionView> {
    exts.map_values(|e: ExtensionSpec| e@)
}

/// The extension without its sources: what the engine needs when the
/// sources are already in the startup snapshot.
pub open spec fn without_sources(e: ExtensionView) -> ExtensionView {
    ExtensionView { id: e.id, js_files: seq![], esm_files: seq![], esm_entry_point: None }
}

pub open spec fn extensions_spec(exts: Seq<ExtensionView>, for_snapshot: bool) -> Seq<ExtensionView> {
    if for_snapshot {
        exts.map_values(|e: ExtensionView| without_sources(e))
    } else {
        exts
    }
}

/// The extensions to install: as given, or, where the engine starts from the
/// startup snapshot (`for_snapshot`), without their sources.
pub fn extensions(exts: Vec<ExtensionSpec>, for_snapshot: bool) -> (r: Vec<ExtensionSpec>)
    ensures
        extensions_view(r@) == extensions_spec(extensions_view(exts@), for_snapshot),
{
    if !for_snapshot {
        return exts;
    }
    let mut r: Vec<ExtensionSpec> = Vec::new();
    let n: usize = exts.len();
    for i in 0..n
        invariant
            n == exts.len(),
            r.len() == i,
            forall|j: int|
                0 <= j < i ==> #[trigger] r@[j]@ == without_sources(exts@[j]@),
    {
        let e = ExtensionSpec {
            id: exts[i].id,
            js_files: Vec::new(),
            esm_files: Vec::new(),
            esm_entry_point: None,
        };
        proof {
            assert(e.js_files.deep_view() =~= Seq::<Seq<char>>::empty());
            assert(e.esm_files.deep_view() =~= Seq::<Seq<char>>::empty());
        }
        r.push(e);
    }
    assert(extensions_view(r@) =~= extensions_spec(extensions_view(exts@), for_snapshot));
    r
}

/// Preparing the extensions keeps each one, in its place: the engine installs
/// the same extensions in the same order with or without a snapshot.
pub proof fn law_extensions_keep_identity_and_order(exts: Seq<ExtensionView>, for_snapshot: bool)
    ensures
        extensions_spec(exts, for_snapshot).len() == exts.len(),
        forall|i: int|
            0 <= i < exts.len() ==> #[trigger] extensions_spec(exts, for_snapshot)[i].id
                == exts[i].id,
{
}

/// For an engine that starts from the snapshot, no extension brings sources.
pub proof fn law_snapshot_extensions_bring_no_sources(exts: Seq<ExtensionView>)
    ensures
        forall|i: int|
            0 <= i < exts.len() ==> {
                let e = #[trigger] extensions_spec(exts, true)[i];
                &&& e.js_files.len() == 0
                &&& e.esm_files.len() == 0
                &&& e.esm_entry_point is None
            },
{
}

/// Without a snapshot the extensions are installed as they are.
pub proof fn law_fresh_extensions_unchanged(exts: Seq<ExtensionView>)
    ensures
        extensions_spec(exts, false) == exts,
{
}

/// Preparing extensions that were already prepared changes nothing.
pub proof fn law_extensions_idempotent(exts: Seq<ExtensionView>, for_snapshot: bool)
    ensures
        extensions_spec(extensions_spec(exts, for_snapshot), for_snapshot) == extensions_spec(
            exts,
            for_snapshot,
        ),
{
    assert(extensions_spec(extensions_spec(exts, for_snapshot), for_snapshot) =~= extensions_spec(
        exts,
        for_snapshot,
    ));
}

} // verus!
