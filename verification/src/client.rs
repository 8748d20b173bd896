//! The runtime bootstrapper: connection parameters, the connection-string
//! formatter, and the readiness state machine for the native client
//! runtime.
//!
//! The machine decides; the surrounding process acts. Each call of
//! `ensure_runtime_available` hands in the outcome of the native-client
//! probe and is answered with the one action to perform: nothing, or stage
//! the embedded bundle and splice its directory into the search path.
//! After a completed staging the process reports back with
//! `note_extracted`, which moves the machine into its second terminal
//! state.

use vstd::prelude::*;

verus! {

use vstd::string::StringExecFns;
use crate::strutil::dec_spec;
use crate::strutil::u64_to_dec;

/// Readiness of the native client runtime, as last established.
///
/// `Unchecked` is the only state with an outgoing transition; the two
/// terminal states differ only in who provides the runtime: the host
/// (`Present`) or the staged copy of the embedded bundle (`Extracted`).
#[derive(PartialEq, Eq, Structural, Clone, Copy, Debug)]
pub enum RuntimeStatus {
    Unchecked,
    Present,
    Extracted,
}

/// What the surrounding process must do after a probe.
#[derive(PartialEq, Eq, Structural, Clone, Copy, Debug)]
pub enum BootstrapAction {
    Nothing,
    Extract,
}

/// The readiness state machine: from `Unchecked`, a successful probe
/// settles the matter; a failed one demands an extraction. The terminal
/// states never change and never demand anything.
pub open spec fn bootstrap_step_spec(s: RuntimeStatus, probe_ok: bool) -> (RuntimeStatus,
    BootstrapAction) {
    match s {
        RuntimeStatus::Unchecked => if probe_ok {
            (RuntimeStatus::Present, BootstrapAction::Nothing)
        } else {
            (RuntimeStatus::Unchecked, BootstrapAction::Extract)
        },
        _ => (s, BootstrapAction::Nothing),
    }
}

/// A state from which `ensure_runtime_available` never acts again.
pub open spec fn terminal(s: RuntimeStatus) -> bool {
    s != RuntimeStatus::Unchecked
}

/// The search-path piece list after performing a bootstrap action that
/// would splice `dir` in.
pub open spec fn path_after(act: BootstrapAction, pieces: Seq<Seq<char>>, dir: Seq<char>) -> Seq<
    Seq<char>,
> {
    match act {
        BootstrapAction::Nothing => pieces,
        BootstrapAction::Extract => pieces.push(dir),
    }
}

/// The connection string for a host, port and service name.
pub open spec fn con_str_spec(host: Seq<char>, port: u16, svc: Seq<char>) -> Seq<char> {
    host + seq![':'] + dec_spec(port as nat) + seq!['/'] + svc
}

/// Owns the connection parameters and the readiness state of the native
/// client runtime.
pub struct OracleClient {
    pub db_host: String,
    pub db_port: u16,
    pub db_svc: String,
    pub db_user: String,
    pub db_pass: String,
    pub runtime: RuntimeStatus,
}

impl OracleClient {
    /// The readiness state, as last established.
    pub open spec fn status(&self) -> RuntimeStatus {
        self.runtime
    }

    /// Pure construction; nothing is probed, validated or touched.
    pub fn new(db_host: String, db_port: u16, db_svc: String, db_user: String, db_pass: String)
        -> (r: Self)
        ensures
            r.db_host == db_host,
            r.db_port == db_port,
            r.db_svc == db_svc,
            r.db_user == db_user,
            r.db_pass == db_pass,
            r.status() == RuntimeStatus::Unchecked,
    {
        OracleClient { db_host, db_port, db_svc, db_user, db_pass, runtime: RuntimeStatus::Unchecked }
    }

    /// Formats `"{host}:{port}/{service}"` from the stored parameters.
    pub fn con_str(&self) -> (r: String)
        ensures
            r@ == con_str_spec(self.db_host@, self.db_port, self.db_svc@),
    {
        let mut r = self.db_host.clone();
        r.append(":");
        r.append(u64_to_dec(self.db_port as u64).as_str());
        r.append("/");
        r.append(self.db_svc.as_str());
        proof {
            reveal_strlit(":");
            reveal_strlit("/");
            assert(":"@ =~= seq![':']);
            assert("/"@ =~= seq!['/']);
        }
        r
    }

    /// One step of the bootstrap: hands in the probe outcome, answers with
    /// the action still owed. A successful probe, or a terminal state,
    /// demands nothing; only a failed probe in the initial state demands
    /// an extraction.
    pub fn ensure_runtime_available(&mut self, probe_ok: bool) -> (act: BootstrapAction)
        ensures
            final(self).db_host == old(self).db_host,
            final(self).db_port == old(self).db_port,
            final(self).db_svc == old(self).db_svc,
            final(self).db_user == old(self).db_user,
            final(self).db_pass == old(self).db_pass,
            final(self).status() == bootstrap_step_spec(old(self).status(), probe_ok).0,
            act == bootstrap_step_spec(old(self).status(), probe_ok).1,
            probe_ok ==> act == BootstrapAction::Nothing,
            terminal(old(self).status()) ==> act == BootstrapAction::Nothing && final(self).status()
                == old(self).status(),
            (act == BootstrapAction::Extract) <==> (old(self).status() == RuntimeStatus::Unchecked
                && !probe_ok),
    {
        match self.runtime {
            RuntimeStatus::Unchecked => {
                if probe_ok {
                    self.runtime = RuntimeStatus::Present;
                    BootstrapAction::Nothing
                } else {
                    BootstrapAction::Extract
                }
            },
            _ => BootstrapAction::Nothing,
        }
    }

    /// Reports that the demanded extraction completed: the bundle was
    /// staged and the staging directory spliced into the search path.
    pub fn note_extracted(&mut self)
        requires
            old(self).status() == RuntimeStatus::Unchecked,
        ensures
            final(self).db_host == old(self).db_host,
            final(self).db_port == old(self).db_port,
            final(self).db_svc == old(self).db_svc,
            final(self).db_user == old(self).db_user,
            final(self).db_pass == old(self).db_pass,
            final(self).status() == RuntimeStatus::Extracted,
    {
        self.runtime = RuntimeStatus::Extracted;
    }

    /// The readiness state, for the surrounding process to inspect.
    pub fn runtime_status(&self) -> (r: RuntimeStatus)
        ensures
            r == self.status(),
    {
        self.runtime
    }
}

/// Law: a successful probe has no side effects at all — no action is
/// demanded and the search path stays what it was.
pub proof fn lemma_probe_ok_no_side_effects(
    s: RuntimeStatus,
    pieces: Seq<Seq<char>>,
    dir: Seq<char>,
)
    ensures
        bootstrap_step_spec(s, true).1 == BootstrapAction::Nothing,
        path_after(bootstrap_step_spec(s, true).1, pieces, dir) == pieces,
{
}

/// Law: the bootstrap is idempotent. A first call from the initial state,
/// with its extraction (if one was demanded) completed, leaves the
/// machine terminal; whatever the second probe reports, the second call
/// demands nothing, so the search path after two calls equals the search
/// path after one.
pub proof fn lemma_ensure_twice_is_once(
    probe1: bool,
    probe2: bool,
    pieces: Seq<Seq<char>>,
    dir: Seq<char>,
)
    ensures
        ({
            let first = bootstrap_step_spec(RuntimeStatus::Unchecked, probe1);
            let settled = if first.1 == BootstrapAction::Extract {
                RuntimeStatus::Extracted
            } else {
                first.0
            };
            let path1 = path_after(first.1, pieces, dir);
            let second = bootstrap_step_spec(settled, probe2);
            second.1 == BootstrapAction::Nothing && path_after(second.1, path1, dir) == path1
                && terminal(settled) && second.0 == settled
        }),
{
}

} // verus!

