//! The manifest document and the rewrite of its runtime parameters.
use vstd::prelude::*;

verus! {

/// The `schema` entry of a manifest: the GraphQL schema file.
#[derive(Debug, Clone, PartialEq, Eq)]
pub struct Schema {
    pub file: String,
}

/// One ABI used by a mapping.
#[derive(Debug, Clone, PartialEq, Eq)]
pub struct Abi {
    pub name: String,
    pub file: String,
}

/// One event handler of a mapping.
#[derive(Debug, Clone, PartialEq, Eq)]
pub struct EventHandler {
    pub event: String,
    pub handler: String,
    pub receipt: Option<bool>,
}

/// The mapping of a data source; carried through unchanged.
#[derive(Debug, Clone, PartialEq, Eq)]
pub struct Mapping {
    pub kind: String,
    pub api_version: String,
    pub language: String,
    pub entities: Vec<String>,
    pub abis: Vec<Abi>,
    pub event_handlers: Vec<EventHandler>,
    pub file: String,
}

/// The contract that a data source indexes.
#[derive(Debug, Clone, PartialEq, Eq)]
pub struct Source {
    pub address: Option<String>,
    pub abi: String,
    pub start_block: Option<u64>,
}

/// A data source or a template entry of a manifest.
#[derive(Debug, Clone, PartialEq, Eq)]
pub struct DataSource {
    pub kind: String,
    pub name: String,
    pub network: String,
    pub source: Source,
    pub mapping: Mapping,
}

/// A parsed manifest document.
#[derive(Debug, Clone, PartialEq, Eq)]
pub struct SubgraphTemplate {
    pub spec_version: String,
    pub schema: Schema,
    pub data_sources: Vec<DataSource>,
    pub templates: Option<Vec<DataSource>>,
}

/// The values written into a manifest: network, contract address and start block.
#[derive(Debug, Clone, PartialEq, Eq)]
pub struct Params {
    pub network: String,
    pub address: String,
    pub start_block: u64,
}

/// The parameters of a manifest rewrite seen as values.
pub struct ParamsView {
    pub network: Seq<char>,
    pub address: Seq<char>,
    pub start_block: u64,
}

impl View for Params {
    type V = ParamsView;

    open spec fn view(&self) -> ParamsView {
        ParamsView { network: self.network@, address: self.address@, start_block: self.start_block }
    }
}

/// A manifest seen as a value: its sequences as `Seq`.
pub struct ManifestView {
    pub spec_version: String,
    pub schema: Schema,
    pub data_sources: Seq<DataSource>,
    pub templates: Option<Seq<DataSource>>,
}

impl View for SubgraphTemplate {
    type V = ManifestView;

    open spec fn view(&self) -> ManifestView {
        ManifestView {
            spec_version: self.spec_version,
            schema: self.schema,
            data_sources: self.data_sources@,
            templates: match self.templates {
                Some(t) => Some(t@),
                None => None,
            },
        }
    }
}

/// A data source with the network, address and start block of `p`, all else kept.
pub open spec fn retargeted(d: DataSource, p: Params) -> DataSource {
    DataSource {
        network: p.network,
        source: Source { address: Some(p.address), start_block: Some(p.start_block), ..d.source },
        ..d
    }
}

/// A template entry on network `network`, all else kept.
pub open spec fn renetworked(d: DataSource, network: String) -> DataSource {
    DataSource { network, ..d }
}

/// Every data source retargeted to `p`.
pub open spec fn retargeted_all(s: Seq<DataSource>, p: Params) -> Seq<DataSource> {
    s.map_values(|d: DataSource| retargeted(d, p))
}

/// Every template entry moved to network `network`.
pub open spec fn renetworked_all(s: Seq<DataSource>, network: String) -> Seq<DataSource> {
    s.map_values(|d: DataSource| renetworked(d, network))
}

/// The manifest `m` once the parameters `p` are applied to it.
pub open spec fn applied(m: ManifestView, p: Params) -> ManifestView {
    ManifestView {
        data_sources: retargeted_all(m.data_sources, p),
        templates: match m.templates {
            Some(t) => Some(renetworked_all(t, p.network)),
            None => None,
        },
        ..m
    }
}

/// Sets network, address and start block of every data source in `v`.
fn retarget_data_sources(v: &mut Vec<DataSource>, p: &Params)
    ensures
        final(v)@ == retargeted_all(old(v)@, *p),
{
    let n = v.len();
    let mut i: usize = 0;
    while i < n
        invariant
            n == old(v)@.len(),
            v@.len() == n,
            i <= n,
            forall|j: int| 0 <= j < i ==> v@[j] == retargeted(old(v)@[j], *p),
            forall|j: int| i <= j < n ==> v@[j] == old(v)@[j],
        decreases n - i,
    {
        v[i].network = p.network.clone();
        v[i].source.address = Some(p.address.clone());
        v[i].source.start_block = Some(p.start_block);
        i += 1;
    }
    assert(v@ =~= retargeted_all(old(v)@, *p));
}

/// Sets the network of every template entry in `v`.
fn renetwork_templates(v: &mut Vec<DataSource>, network: &String)
    ensures
        final(v)@ == renetworked_all(old(v)@, *network),
{
    let n = v.len();
    let mut i: usize = 0;
    while i < n
        invariant
            n == old(v)@.len(),
            v@.len() == n,
            i <= n,
            forall|j: int| 0 <= j < i ==> v@[j] == renetworked(old(v)@[j], *network),
            forall|j: int| i <= j < n ==> v@[j] == old(v)@[j],
        decreases n - i,
    {
        v[i].network = network.clone();
        i += 1;
    }
    assert(v@ =~= renetworked_all(old(v)@, *network));
}

/// Writes `params` into the manifest: network, address and start block into
/// every data source, and the network alone into every template entry. The
/// address is stored as given; any quoting is left to the serializer.
pub fn apply_params(doc: &mut SubgraphTemplate, params: &Params)
    ensures
        final(doc)@ == applied(old(doc)@, *params),
{
    retarget_data_sources(&mut doc.data_sources, params);
    match &mut doc.templates {
        Some(t) => renetwork_templates(t, &params.network),
        None => {},
    }
}

/// After the rewrite every data source carries the network, address and start
/// block of `p`, every template entry carries the network of `p`, and the
/// counts of both are those of the input.
pub proof fn lemma_applied_sets_every_entry(m: ManifestView, p: Params)
    ensures
        applied(m, p).data_sources.len() == m.data_sources.len(),
        forall|i: int|
            0 <= i < m.data_sources.len() ==> {
                let d = #[trigger] applied(m, p).data_sources[i];
                &&& d.network == p.network
                &&& d.source.address == Some(p.address)
                &&& d.source.start_block == Some(p.start_block)
                &&& d.kind == m.data_sources[i].kind
                &&& d.name == m.data_sources[i].name
                &&& d.source.abi == m.data_sources[i].source.abi
                &&& d.mapping == m.data_sources[i].mapping
            },
        m.templates is Some <==> applied(m, p).templates is Some,
        m.templates is Some ==> {
            let t = m.templates.unwrap();
            let u = applied(m, p).templates.unwrap();
            &&& u.len() == t.len()
            &&& forall|i: int|
                0 <= i < t.len() ==> {
                    let d = #[trigger] u[i];
                    &&& d.network == p.network
                    &&& d.source == t[i].source
                    &&& d.kind == t[i].kind
                    &&& d.name == t[i].name
                    &&& d.mapping == t[i].mapping
                }
        },
        applied(m, p).spec_version == m.spec_version,
        applied(m, p).schema == m.schema,
{
}

/// Applying the same parameters a second time changes nothing.
pub proof fn lemma_apply_idempotent(m: ManifestView, p: Params)
    ensures
        applied(applied(m, p), p) == applied(m, p),
{
    let once = applied(m, p);
    let twice = applied(once, p);
    assert(twice.data_sources =~= once.data_sources);
    if m.templates is Some {
        assert(twice.templates.unwrap() =~= once.templates.unwrap());
    }
}

} // verus!
