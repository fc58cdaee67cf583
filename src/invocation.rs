use crate::capability::{
    build_capabilities, check_link, grant, links, needs_network, wants_network, CapabilityRequest,
    CapabilitySet, Strategy,
};
use crate::engine::{compile, has_component_preamble, has_core_module, well_framed, EngineSettings};
use crate::error::{AppError, FailureKind};
use crate::payload::{decode_payload, json_accepts, json_value_of};
use vstd::prelude::*;

verus! {

/// The phases of one invocation, in the order they are passed.
#[derive(Clone, Copy, Debug, PartialEq, Eq, Structural)]
pub enum Phase {
    /// The input payload is checked to be JSON.
    Validating,
    /// The artifact is fetched from the store.
    Fetching,
    /// The artifact is compiled.
    Compiling,
    /// The component is linked against its capability set and instantiated.
    Linking,
    /// The guest's `exec` runs.
    Executing,
    /// The guest's output is checked to be JSON.
    Decoding,
    /// The output was handed back.
    Done,
    /// The invocation stopped with a failure of the given kind.
    Failed(FailureKind),
}

/// The position of a phase in the order of phases; `Done` is last.
pub open spec fn stage(p: Phase) -> int {
    match p {
        Phase::Validating => 0,
        Phase::Fetching => 1,
        Phase::Compiling => 2,
        Phase::Linking => 3,
        Phase::Executing => 4,
        Phase::Decoding => 5,
        Phase::Done => 6,
        Phase::Failed(_) => -1,
    }
}

/// The phase at a position of the order.
pub open spec fn phase_at(n: int) -> Phase {
    if n <= 0 {
        Phase::Validating
    } else if n == 1 {
        Phase::Fetching
    } else if n == 2 {
        Phase::Compiling
    } else if n == 3 {
        Phase::Linking
    } else if n == 4 {
        Phase::Executing
    } else if n == 5 {
        Phase::Decoding
    } else {
        Phase::Done
    }
}

/// Whether work remains to be done in `p`.
pub open spec fn running(p: Phase) -> bool {
    0 <= stage(p) < 6
}

/// The failure that the work of a running phase can end in.
pub open spec fn failure_of(p: Phase) -> FailureKind {
    match p {
        Phase::Fetching => FailureKind::ArtifactFetch,
        Phase::Compiling => FailureKind::Compile,
        Phase::Linking => FailureKind::Link,
        Phase::Executing => FailureKind::GuestTrap,
        _ => FailureKind::PayloadSerialization,
    }
}

/// The phase after the work of `p` succeeded (`ok`) or failed. `Done` and
/// `Failed` are final.
pub open spec fn next_phase(p: Phase, ok: bool) -> Phase {
    if !running(p) {
        p
    } else if ok {
        phase_at(stage(p) + 1)
    } else {
        Phase::Failed(failure_of(p))
    }
}

/// The phase reached from `p` after the given outcomes of work, in order.
pub open spec fn run(p: Phase, outcomes: Seq<bool>) -> Phase
    decreases outcomes.len(),
{
    if outcomes.len() == 0 {
        p
    } else {
        run(next_phase(p, outcomes[0]), outcomes.drop_first())
    }
}

/// Moves a phase on by the outcome of its work.
pub fn advance(p: Phase, ok: bool) -> (r: Phase)
    ensures
        r == next_phase(p, ok),
{
    match p {
        Phase::Validating => if ok { Phase::Fetching } else { Phase::Failed(FailureKind::PayloadSerialization) },
        Phase::Fetching => if ok { Phase::Compiling } else { Phase::Failed(FailureKind::ArtifactFetch) },
        Phase::Compiling => if ok { Phase::Linking } else { Phase::Failed(FailureKind::Compile) },
        Phase::Linking => if ok { Phase::Executing } else { Phase::Failed(FailureKind::Link) },
        Phase::Executing => if ok { Phase::Decoding } else { Phase::Failed(FailureKind::GuestTrap) },
        Phase::Decoding => if ok { Phase::Done } else { Phase::Failed(FailureKind::PayloadSerialization) },
        Phase::Done => Phase::Done,
        Phase::Failed(k) => Phase::Failed(k),
    }
}

/// One more outcome moves the reached phase on by one step.
pub proof fn lemma_run_push(p: Phase, s: Seq<bool>, b: bool)
    ensures
        run(p, s.push(b)) == next_phase(run(p, s), b),
    decreases s.len(),
{
    if s.len() == 0 {
        assert(s.push(b).drop_first() =~= Seq::<bool>::empty());
        assert(s.push(b)[0] == b);
        assert(run(next_phase(p, b), Seq::<bool>::empty()) == next_phase(p, b));
    } else {
        assert(s.push(b)[0] == s[0]);
        assert(s.push(b).drop_first() =~= s.drop_first().push(b));
        lemma_run_push(next_phase(p, s[0]), s.drop_first(), b);
    }
}

/// A finished invocation stays as it is, whatever outcomes follow.
pub proof fn lemma_final_phase_stays(p: Phase, s: Seq<bool>)
    requires
        !running(p),
    ensures
        run(p, s) == p,
    decreases s.len(),
{
    if s.len() > 0 {
        lemma_final_phase_stays(p, s.drop_first());
    }
}

/// The first failed step decides the failure: if the work of the phases
/// before it all succeeded, the invocation fails with the kind of the phase
/// whose work failed, and no later phase is entered.
pub proof fn lemma_first_failure_decides(p: Phase, s: Seq<bool>, k: int)
    requires
        running(p),
        0 <= k < s.len(),
        stage(p) + k < 6,
        forall|i: int| 0 <= i < k ==> s[i],
        !s[k],
    ensures
        run(p, s) == Phase::Failed(failure_of(phase_at(stage(p) + k))),
    decreases k,
{
    if k == 0 {
        assert(phase_at(stage(p)) == p);
        lemma_final_phase_stays(Phase::Failed(failure_of(p)), s.drop_first());
    } else {
        let q = phase_at(stage(p) + 1);
        assert(s[0]);
        assert(stage(q) == stage(p) + 1);
        lemma_first_failure_decides(q, s.drop_first(), k - 1);
    }
}

/// A running phase is reached only through the success of the work of every
/// phase before it, one step each.
pub proof fn lemma_reached_only_by_success(p: Phase, s: Seq<bool>, target: Phase)
    requires
        running(p),
        running(target),
        run(p, s) == target,
    ensures
        s.len() == stage(target) - stage(p),
        forall|i: int| 0 <= i < s.len() ==> s[i],
    decreases s.len(),
{
    if s.len() > 0 {
        let q = next_phase(p, s[0]);
        if !s[0] {
            lemma_final_phase_stays(q, s.drop_first());
        } else if stage(p) == 5 {
            lemma_final_phase_stays(q, s.drop_first());
        } else {
            lemma_reached_only_by_success(q, s.drop_first(), target);
            assert forall|i: int| 0 <= i < s.len() implies s[i] by {
                if i > 0 {
                    assert(s[i] == s.drop_first()[i - 1]);
                }
            }
        }
    }
}

/// An artifact that could not be fetched ends the invocation with an
/// artifact fetch failure, and compilation is never reached.
pub proof fn law_fetch_failure_stops(s: Seq<bool>)
    requires
        s.len() >= 2,
        s[0],
        !s[1],
    ensures
        run(Phase::Validating, s) == Phase::Failed(FailureKind::ArtifactFetch),
        forall|n: int| 0 <= n <= s.len() ==> run(Phase::Validating, #[trigger] s.take(n)) != Phase::Compiling,
{
    lemma_first_failure_decides(Phase::Validating, s, 1);
    assert forall|n: int| 0 <= n <= s.len() implies run(Phase::Validating, #[trigger] s.take(n)) != Phase::Compiling by {
        if run(Phase::Validating, s.take(n)) == Phase::Compiling {
            lemma_reached_only_by_success(Phase::Validating, s.take(n), Phase::Compiling);
            assert(s.take(n)[1] == s[1]);
        }
    }
}

/// Input that is not JSON ends the invocation with a payload serialization
/// failure before anything is fetched, and `exec` is never reached; output
/// that is not JSON ends it with a payload serialization failure after
/// `exec` returned.
pub proof fn law_malformed_payload(s: Seq<bool>)
    requires
        s.len() >= 1,
    ensures
        !s[0] ==> run(Phase::Validating, s) == Phase::Failed(FailureKind::PayloadSerialization),
        !s[0] ==> forall|n: int| 0 <= n <= s.len() ==> run(Phase::Validating, #[trigger] s.take(n)) != Phase::Executing,
        run(Phase::Decoding, seq![false]) == Phase::Failed(FailureKind::PayloadSerialization),
{
    if !s[0] {
        lemma_first_failure_decides(Phase::Validating, s, 0);
        assert forall|n: int| 0 <= n <= s.len() implies run(Phase::Validating, #[trigger] s.take(n)) != Phase::Executing by {
            if run(Phase::Validating, s.take(n)) == Phase::Executing {
                lemma_reached_only_by_success(Phase::Validating, s.take(n), Phase::Executing);
                assert(s.take(n)[0] == s[0]);
            }
        }
    }
    let f = seq![false];
    assert(f.drop_first() =~= Seq::<bool>::empty());
    assert(run(next_phase(Phase::Decoding, false), Seq::<bool>::empty()) == next_phase(Phase::Decoding, false));
}

/// A failed compilation ends the invocation with a compile failure, and
/// linking is never reached.
pub proof fn law_compile_failure_stops(s: Seq<bool>)
    requires
        s.len() >= 3,
        s[0],
        s[1],
        !s[2],
    ensures
        run(Phase::Validating, s) == Phase::Failed(FailureKind::Compile),
{
    lemma_first_failure_decides(Phase::Validating, s, 2);
}

/// A failed link ends the invocation with a link failure before any guest
/// code runs: `exec` is never reached.
pub proof fn law_link_failure_stops(s: Seq<bool>)
    requires
        s.len() >= 4,
        s[0],
        s[1],
        s[2],
        !s[3],
    ensures
        run(Phase::Validating, s) == Phase::Failed(FailureKind::Link),
        forall|n: int| 0 <= n <= s.len() ==> run(Phase::Validating, #[trigger] s.take(n)) != Phase::Executing,
{
    lemma_first_failure_decides(Phase::Validating, s, 3);
    assert forall|n: int| 0 <= n <= s.len() implies run(Phase::Validating, #[trigger] s.take(n)) != Phase::Executing by {
        if run(Phase::Validating, s.take(n)) == Phase::Executing {
            lemma_reached_only_by_success(Phase::Validating, s.take(n), Phase::Executing);
            assert(s.take(n)[3] == s[3]);
        }
    }
}

/// The capability set for a component with the given imports, or the link
/// error of the first import that the set does not provide.
pub fn check_imports(strategy: Strategy, imports: &Vec<String>) -> (r: Result<CapabilitySet, AppError>)
    ensures
        ({
            let caps = grant(CapabilityRequest { strategy, needs_network: wants_network(imports@) });
            &&& r is Ok <==> links(imports@, caps)
            &&& r is Ok ==> r->Ok_0 == caps
            &&& r is Err ==> r->Err_0 is Link
        }),
{
    let req = CapabilityRequest { strategy, needs_network: needs_network(imports) };
    let caps = build_capabilities(req);
    match check_link(imports, caps) {
        Ok(()) => Ok(caps),
        Err(e) => Err(e),
    }
}

/// What the host needs to instantiate the sandbox and call `exec`: the
/// compiled artifact, the capabilities granted to it, and the input.
pub struct Prepared {
    pub engine: wasmtime::Engine,
    pub component: wasmtime::component::Component,
    pub imports: Vec<String>,
    pub capabilities: CapabilitySet,
    pub input: String,
}

/// One invocation of a function: its phase, and the outcomes of the work
/// done so far.
pub struct Invocation {
    strategy: Strategy,
    settings: EngineSettings,
    input: String,
    phase: Phase,
    outcomes: Ghost<Seq<bool>>,
}

impl Invocation {
    pub closed spec fn spec_phase(&self) -> Phase {
        self.phase
    }

    pub closed spec fn spec_input(&self) -> Seq<char> {
        self.input@
    }

    pub closed spec fn spec_strategy(&self) -> Strategy {
        self.strategy
    }

    /// The outcomes of the work done so far, in order.
    pub closed spec fn history(&self) -> Seq<bool> {
        self.outcomes@
    }

    /// The phase is the one that the outcomes so far lead to.
    pub open spec fn wf(&self) -> bool {
        self.spec_phase() == run(Phase::Validating, self.history())
    }

    /// A new invocation of a function with the given input payload. Nothing
    /// is shared with any other invocation.
    pub fn new(strategy: Strategy, input: String) -> (r: Invocation)
        ensures
            r.wf(),
            r.spec_phase() == Phase::Validating,
            r.history() == Seq::<bool>::empty(),
            r.spec_input() == input@,
            r.spec_strategy() == strategy,
    {
        Invocation {
            strategy,
            settings: EngineSettings::baseline(),
            input,
            phase: Phase::Validating,
            outcomes: Ghost(Seq::empty()),
        }
    }

    /// The phase the invocation is in.
    pub fn phase(&self) -> (r: Phase)
        ensures
            r == self.spec_phase(),
    {
        self.phase
    }

    fn record(&mut self, ok: bool)
        requires
            old(self).wf(),
        ensures
            final(self).wf(),
            final(self).history() == old(self).history().push(ok),
            final(self).spec_phase() == next_phase(old(self).spec_phase(), ok),
            final(self).spec_input() == old(self).spec_input(),
            final(self).spec_strategy() == old(self).spec_strategy(),
    {
        proof {
            lemma_run_push(Phase::Validating, self.outcomes@, ok);
        }
        self.phase = advance(self.phase, ok);
        self.outcomes = Ghost(self.outcomes@.push(ok));
    }

    /// Checks that the input is JSON. Input that is not gives a payload
    /// serialization error, and the invocation stops before anything is
    /// fetched.
    pub fn validate(&mut self) -> (r: Result<(), AppError>)
        requires
            old(self).wf(),
            old(self).spec_phase() == Phase::Validating,
        ensures
            final(self).wf(),
            final(self).history() == old(self).history().push(json_accepts(old(self).spec_input())),
            r is Ok <==> json_accepts(old(self).spec_input()),
            r is Ok ==> final(self).spec_phase() == Phase::Fetching,
            r is Err ==> r->Err_0 is PayloadSerialization && final(self).spec_phase()
                == Phase::Failed(FailureKind::PayloadSerialization),
            final(self).spec_input() == old(self).spec_input(),
            final(self).spec_strategy() == old(self).spec_strategy(),
    {
        let checked = decode_payload(self.input.as_str());
        self.record(checked.is_ok());
        match checked {
            Ok(_) => Ok(()),
            Err(e) => Err(e),
        }
    }

    /// Takes the result of fetching the artifact: on success compiles it,
    /// grants its capabilities and checks its imports against them.
    /// A failed fetch stops the invocation before compilation.
    pub fn artifact(&mut self, fetched: Result<Vec<u8>, String>) -> (r: Result<Prepared, AppError>)
        requires
            old(self).wf(),
            old(self).spec_phase() == Phase::Fetching,
        ensures
            final(self).wf(),
            final(self).spec_input() == old(self).spec_input(),
            final(self).spec_strategy() == old(self).spec_strategy(),
            fetched is Err ==> final(self).history() == old(self).history().push(false)
                && final(self).spec_phase() == Phase::Failed(FailureKind::ArtifactFetch)
                && r is Err && r->Err_0.kind() == Some(FailureKind::ArtifactFetch)
                && r->Err_0.text() == fetched->Err_0@,
            fetched is Ok && !has_component_preamble(fetched->Ok_0@) ==> final(self).history()
                == old(self).history().push(true).push(false) && final(self).spec_phase()
                == Phase::Failed(FailureKind::Compile) && r is Err && r->Err_0 is Compile,
            r is Err && r->Err_0.kind() == Some(FailureKind::ArtifactFetch) ==> fetched is Err,
            fetched is Ok && has_component_preamble(fetched->Ok_0@) && !well_framed(fetched->Ok_0@)
                ==> (r matches Err(AppError::Compile(m)) && m@ == "malformed or truncated section"@),
            fetched is Ok && has_component_preamble(fetched->Ok_0@) && well_framed(fetched->Ok_0@)
                && !has_core_module(fetched->Ok_0@) ==> (r matches Err(AppError::Compile(m)) && m@
                == "component carries no core module"@),
            r is Err ==> final(self).spec_phase() is Failed && final(self).spec_phase()->Failed_0
                == r->Err_0.kind()->Some_0 && r->Err_0.kind() is Some,
            r is Err && r->Err_0 is Link ==> final(self).history() == old(self).history().push(
                true,
            ).push(true).push(false),
            r is Ok ==> ({
                let p = r->Ok_0;
                &&& final(self).history() == old(self).history().push(true).push(true)
                &&& final(self).spec_phase() == Phase::Linking
                &&& fetched is Ok && has_component_preamble(fetched->Ok_0@) && has_core_module(
                    fetched->Ok_0@,
                )
                &&& p.capabilities == grant(
                    CapabilityRequest {
                        strategy: old(self).spec_strategy(),
                        needs_network: wants_network(p.imports@),
                    },
                )
                &&& links(p.imports@, p.capabilities)
                &&& p.input@ == old(self).spec_input()
            }),
    {
        let bytes = match fetched {
            Ok(b) => b,
            Err(m) => {
                self.record(false);
                return Err(AppError::from_failure(FailureKind::ArtifactFetch, m));
            },
        };
        self.record(true);
        let compiled = match compile(&self.settings, bytes.as_slice()) {
            Ok(c) => c,
            Err(e) => {
                self.record(false);
                return Err(e);
            },
        };
        self.record(true);
        let caps = match check_imports(self.strategy, &compiled.imports) {
            Ok(c) => c,
            Err(e) => {
                self.record(false);
                return Err(e);
            },
        };
        Ok(
            Prepared {
                engine: compiled.engine,
                component: compiled.component,
                imports: compiled.imports,
                capabilities: caps,
                input: self.input.clone(),
            },
        )
    }

    /// Takes the result of instantiating the sandbox. A failure to link is a
    /// link error, and `exec` is not called.
    pub fn instantiated(&mut self, linked: Result<(), String>) -> (r: Result<(), AppError>)
        requires
            old(self).wf(),
            old(self).spec_phase() == Phase::Linking,
        ensures
            final(self).wf(),
            final(self).history() == old(self).history().push(linked is Ok),
            final(self).spec_input() == old(self).spec_input(),
            final(self).spec_strategy() == old(self).spec_strategy(),
            r is Ok <==> linked is Ok,
            r is Ok ==> final(self).spec_phase() == Phase::Executing,
            linked is Err ==> final(self).spec_phase() == Phase::Failed(FailureKind::Link)
                && r->Err_0.kind() == Some(FailureKind::Link) && r->Err_0.text() == linked->Err_0@,
    {
        match linked {
            Ok(()) => {
                self.record(true);
                Ok(())
            },
            Err(m) => {
                self.record(false);
                Err(AppError::from_failure(FailureKind::Link, m))
            },
        }
    }

    /// Takes what `exec` gave back: its output, or the description of the
    /// trap that stopped the guest. Output that is not JSON is a payload
    /// serialization error.
    pub fn finish(&mut self, output: Result<String, String>) -> (r: Result<serde_json::Value, AppError>)
        requires
            old(self).wf(),
            old(self).spec_phase() == Phase::Executing,
        ensures
            final(self).wf(),
            final(self).spec_input() == old(self).spec_input(),
            final(self).spec_strategy() == old(self).spec_strategy(),
            output is Err ==> final(self).history() == old(self).history().push(false)
                && final(self).spec_phase() == Phase::Failed(FailureKind::GuestTrap)
                && r is Err && r->Err_0.kind() == Some(FailureKind::GuestTrap)
                && r->Err_0.text() == output->Err_0@,
            output is Ok ==> final(self).history() == old(self).history().push(true).push(
                json_accepts(output->Ok_0@),
            ),
            output is Ok ==> (r is Ok <==> json_accepts(output->Ok_0@)),
            output is Ok && r is Ok ==> final(self).spec_phase() == Phase::Done && r->Ok_0
                == json_value_of(output->Ok_0@),
            output is Ok && r is Err ==> r->Err_0 is PayloadSerialization && final(self).spec_phase()
                == Phase::Failed(FailureKind::PayloadSerialization),
    {
        let raw = match output {
            Ok(raw) => raw,
            Err(m) => {
                self.record(false);
                return Err(AppError::from_failure(FailureKind::GuestTrap, m));
            },
        };
        self.record(true);
        let decoded = decode_payload(raw.as_str());
        self.record(decoded.is_ok());
        decoded
    }
}

/// `exec` is called only in an invocation whose input was JSON, whose
/// artifact was fetched and compiled, and whose sandbox linked: the work of
/// every earlier phase succeeded, once each.
pub proof fn law_exec_only_after_checks(inv: &Invocation)
    requires
        inv.wf(),
        inv.spec_phase() == Phase::Executing,
    ensures
        inv.history() =~= seq![true, true, true, true],
{
    lemma_reached_only_by_success(Phase::Validating, inv.history(), Phase::Executing);
}

/// What an invocation has reached depends on its own outcomes alone: two
/// invocations whose own steps went the same way are in the same phase,
/// whatever else ran beside them.
pub proof fn law_phase_from_own_history(a: &Invocation, b: &Invocation)
    requires
        a.wf(),
        b.wf(),
        a.history() == b.history(),
    ensures
        a.spec_phase() == b.spec_phase(),
{
}

} // verus!
