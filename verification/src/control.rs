//! The engine lifecycle: an application-level context that tracks the one
//! engine instance the control layer may have running and decides what each
//! start, stop or update request does. The layer around the library carries
//! the decisions out — stops the old worker, opens the device, joins the
//! thread — and reports how the start went.

use vstd::prelude::*;

use crate::config::{spec_validate, validate_config, ConfigError, MetronomeConfig};

verus! {

/// Lifecycle phase of the engine the controller governs.
#[derive(Clone, Copy, Debug, PartialEq, Eq, Structural)]
pub enum EnginePhase {
    /// No engine is running.
    Idle,
    /// A start was accepted; the stream is being brought up.
    Starting,
    /// An engine is running.
    Running,
}

/// What the control layer must do to honour an accepted start request.
#[derive(Clone, Copy, Debug, PartialEq, Eq, Structural)]
pub struct StartDecision {
    /// Whether a running engine must be stopped — and fully joined — before
    /// the new one is brought up, so no two engines ever run at once.
    pub stop_previous: bool,
}

/// The lifecycle context: holds at most one engine, never two.
#[derive(Clone, Copy, Debug, PartialEq, Eq, Structural)]
pub struct Controller {
    pub phase: EnginePhase,
}

impl Controller {
    /// A fresh context with no engine running.
    pub fn new() -> (c: Self)
        ensures
            c.phase is Idle,
    {
        Controller { phase: EnginePhase::Idle }
    }

    /// A start request. An invalid configuration is rejected with the first
    /// violated rule and changes nothing. A valid one is accepted: any
    /// running engine is to be stopped first, then the stream brought up;
    /// the outcome comes back through [`Self::on_start_outcome`].
    pub fn on_start(&mut self, cfg: &MetronomeConfig) -> (r: Result<StartDecision, ConfigError>)
        requires
            !(old(self).phase is Starting),
        ensures
            r is Ok <==> cfg.valid(),
            !cfg.valid() ==> {
                &&& *final(self) == *old(self)
                &&& spec_validate(*cfg) is Err
                &&& r == Err::<StartDecision, ConfigError>(spec_validate(*cfg)->Err_0)
            },
            cfg.valid() ==> {
                &&& final(self).phase is Starting
                &&& r == Ok::<StartDecision, ConfigError>(StartDecision {
                    stop_previous: old(self).phase is Running,
                })
            },
    {
        match validate_config(cfg) {
            Err(e) => Err(e),
            Ok(()) => {
                let stop_previous = matches!(self.phase, EnginePhase::Running);
                self.phase = EnginePhase::Starting;
                Ok(StartDecision { stop_previous })
            },
        }
    }

    /// Reports how an accepted start went: whether the device opened and
    /// the worker came up. A failed start leaves the context idle, so a
    /// later start can fully recover.
    pub fn on_start_outcome(&mut self, ok: bool)
        requires
            old(self).phase is Starting,
        ensures
            ok ==> final(self).phase is Running,
            !ok ==> final(self).phase is Idle,
    {
        if ok {
            self.phase = EnginePhase::Running;
        } else {
            self.phase = EnginePhase::Idle;
        }
    }

    /// A stop request: says whether there is an engine to stop and join.
    /// Always safe; when nothing is running — a second stop in a row — it
    /// decides nothing is to be done and succeeds.
    pub fn on_stop(&mut self) -> (stop_now: bool)
        requires
            !(old(self).phase is Starting),
        ensures
            stop_now == (old(self).phase is Running),
            final(self).phase is Idle,
    {
        let stop_now = matches!(self.phase, EnginePhase::Running);
        self.phase = EnginePhase::Idle;
        stop_now
    }

    /// An update request: the candidate is validated, and is to be written
    /// to the shared configuration cell exactly when an engine is running —
    /// with nothing running the request is a no-op, not an error.
    pub fn on_update(&self, cfg: &MetronomeConfig) -> (r: Result<bool, ConfigError>)
        ensures
            cfg.valid() ==> r == Ok::<bool, ConfigError>(self.phase is Running),
            !cfg.valid() ==> {
                &&& spec_validate(*cfg) is Err
                &&& r == Err::<bool, ConfigError>(spec_validate(*cfg)->Err_0)
            },
    {
        match validate_config(cfg) {
            Err(e) => Err(e),
            Ok(()) => Ok(matches!(self.phase, EnginePhase::Running)),
        }
    }
}

} // verus!
