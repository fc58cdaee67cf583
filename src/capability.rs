use crate::error::AppError;
use vstd::prelude::*;
use vstd::string::{StrSliceExecFns, StringExecFns};

verus! {

/// How a deployment drives guest code.
#[derive(Clone, Copy, Debug, PartialEq, Eq, Structural)]
pub enum Strategy {
    /// Instantiation and the call run to completion on a dedicated worker.
    Blocking,
    /// Instantiation and the call run under the cooperative scheduler, so the
    /// guest may use host interfaces that suspend (outbound HTTP).
    Cooperative,
}

/// What one invocation asks of the broker.
#[derive(Clone, Copy, Debug, PartialEq, Eq, Structural)]
pub struct CapabilityRequest {
    pub strategy: Strategy,
    /// Whether the component imports the outbound network interface.
    pub needs_network: bool,
}

/// The host abilities granted to one sandbox for one invocation. Filesystem
/// and process access have no field: the broker cannot grant them.
#[derive(Clone, Copy, Debug, PartialEq, Eq, Structural)]
pub struct CapabilitySet {
    /// The guest's standard output goes to the host's.
    pub inherit_stdout: bool,
    /// The outbound HTTP interface is linked.
    pub outbound_http: bool,
}

/// The grant for a request: standard output always, the network only to a
/// cooperative invocation of a component that imports it.
pub open spec fn grant(req: CapabilityRequest) -> CapabilitySet {
    CapabilitySet {
        inherit_stdout: true,
        outbound_http: req.strategy == Strategy::Cooperative && req.needs_network,
    }
}

/// Builds a fresh capability set for one invocation.
pub fn build_capabilities(req: CapabilityRequest) -> (r: CapabilitySet)
    ensures
        r == grant(req),
{
    let coop = match req.strategy {
        Strategy::Cooperative => true,
        Strategy::Blocking => false,
    };
    CapabilitySet { inherit_stdout: true, outbound_http: coop && req.needs_network }
}

/// The host interface family an import name belongs to.
#[derive(Clone, Copy, Debug, PartialEq, Eq, Structural)]
pub enum ImportFamily {
    /// A WASI interface other than HTTP: linked for every sandbox, with no
    /// preopened directory and no socket permission.
    Wasi,
    /// The WASI HTTP interfaces: linked only with the network capability.
    WasiHttp,
    /// Anything else: this host provides no such function.
    Other,
}

/// `wasi:`
pub open spec fn wasi_prefix() -> Seq<char> {
    seq!['w', 'a', 's', 'i', ':']
}

/// `wasi:http/`
pub open spec fn wasi_http_prefix() -> Seq<char> {
    wasi_prefix() + seq!['h', 't', 't', 'p', '/']
}

/// Whether `s` begins with `p`.
pub open spec fn has_prefix(s: Seq<char>, p: Seq<char>) -> bool {
    p.len() <= s.len() && s.subrange(0, p.len() as int) == p
}

/// The family of an import, from its name.
pub open spec fn family_of(name: Seq<char>) -> ImportFamily {
    if has_prefix(name, wasi_http_prefix()) {
        ImportFamily::WasiHttp
    } else if has_prefix(name, wasi_prefix()) {
        ImportFamily::Wasi
    } else {
        ImportFamily::Other
    }
}

/// Whether a sandbox with `caps` links the imports of `family`.
pub open spec fn provides(caps: CapabilitySet, family: ImportFamily) -> bool {
    match family {
        ImportFamily::Wasi => true,
        ImportFamily::WasiHttp => caps.outbound_http,
        ImportFamily::Other => false,
    }
}

/// Whether some import asks for the network.
pub open spec fn wants_network(imports: Seq<String>) -> bool {
    exists|i: int| 0 <= i < imports.len() && family_of(#[trigger] imports[i]@) == ImportFamily::WasiHttp
}

/// Whether every import is linked under `caps`.
pub open spec fn links(imports: Seq<String>, caps: CapabilitySet) -> bool {
    forall|i: int| 0 <= i < imports.len() ==> provides(caps, family_of(#[trigger] imports[i]@))
}

fn starts_with(s: &str, p: &[char]) -> (r: bool)
    ensures
        r == has_prefix(s@, p@),
{
    let n = s.unicode_len();
    if p.len() > n {
        return false;
    }
    let mut i: usize = 0;
    while i < p.len()
        invariant
            n == s@.len(),
            p@.len() <= s@.len(),
            i <= p@.len(),
            forall|j: int| 0 <= j < i ==> s@[j] == p@[j],
        decreases p@.len() - i,
    {
        if s.get_char(i) != p[i] {
            assert(s@.subrange(0, p@.len() as int)[i as int] != p@[i as int]);
            return false;
        }
        i = i + 1;
    }
    assert(s@.subrange(0, p@.len() as int) =~= p@);
    true
}

/// The family of the import named `name`.
pub fn import_family(name: &str) -> (r: ImportFamily)
    ensures
        r == family_of(name@),
{
    let http: [char; 10] = ['w', 'a', 's', 'i', ':', 'h', 't', 't', 'p', '/'];
    let wasi: [char; 5] = ['w', 'a', 's', 'i', ':'];
    assert(http@ =~= wasi_http_prefix());
    assert(wasi@ =~= wasi_prefix());
    if starts_with(name, http.as_slice()) {
        ImportFamily::WasiHttp
    } else if starts_with(name, wasi.as_slice()) {
        ImportFamily::Wasi
    } else {
        ImportFamily::Other
    }
}

/// Whether some import asks for the outbound network.
pub fn needs_network(imports: &Vec<String>) -> (r: bool)
    ensures
        r == wants_network(imports@),
{
    let mut i: usize = 0;
    while i < imports.len()
        invariant
            i <= imports@.len(),
            forall|j: int| 0 <= j < i ==> family_of(#[trigger] imports@[j]@) != ImportFamily::WasiHttp,
        decreases imports@.len() - i,
    {
        if import_family(imports[i].as_str()) == ImportFamily::WasiHttp {
            return true;
        }
        i = i + 1;
    }
    false
}

/// Checks, before any guest code runs, that every import is linked under
/// `caps`. Fails closed: the first import that is not provided gives a link
/// error naming it.
pub fn check_link(imports: &Vec<String>, caps: CapabilitySet) -> (r: Result<(), AppError>)
    ensures
        r is Ok <==> links(imports@, caps),
        r is Err ==> r->Err_0 is Link && exists|i: int|
            0 <= i < imports@.len() && !provides(caps, family_of(#[trigger] imports@[i]@))
                && r->Err_0->Link_0@ == "unsatisfied import: "@ + imports@[i]@,
{
    let mut i: usize = 0;
    while i < imports.len()
        invariant
            i <= imports@.len(),
            forall|j: int| 0 <= j < i ==> provides(caps, family_of(#[trigger] imports@[j]@)),
        decreases imports@.len() - i,
    {
        let family = import_family(imports[i].as_str());
        let ok = match family {
            ImportFamily::Wasi => true,
            ImportFamily::WasiHttp => caps.outbound_http,
            ImportFamily::Other => false,
        };
        if !ok {
            let m = String::from_str("unsatisfied import: ").concat(imports[i].as_str());
            return Err(AppError::Link(m));
        }
        i = i + 1;
    }
    Ok(())
}

/// A component that imports the outbound network interface does not link
/// under a capability set without the network; in particular never under
/// the blocking strategy.
pub proof fn law_network_needs_grant(imports: Seq<String>, caps: CapabilitySet)
    requires
        wants_network(imports),
    ensures
        !caps.outbound_http ==> !links(imports, caps),
        !links(imports, grant(CapabilityRequest { strategy: Strategy::Blocking, needs_network: true })),
{
    let i = choose|i: int| 0 <= i < imports.len() && family_of(#[trigger] imports[i]@) == ImportFamily::WasiHttp;
    assert(!provides(caps, family_of(imports[i]@)) || caps.outbound_http);
}

/// Each grant is made from its own request alone: the network is granted
/// only to a cooperative invocation whose own component asks for it, so no
/// other invocation's grant can widen it; standard output is the one ability
/// every sandbox has.
pub proof fn law_grant_from_own_request(a: CapabilityRequest)
    ensures
        grant(a).outbound_http ==> a.needs_network && a.strategy == Strategy::Cooperative,
        grant(a).inherit_stdout,
        !a.needs_network ==> grant(a) == grant(CapabilityRequest { strategy: Strategy::Blocking, needs_network: false }),
{
}

} // verus!
