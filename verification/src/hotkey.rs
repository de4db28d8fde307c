//! The manager of the global shortcut that toggles recording.
//!
//! At most one shortcut is registered with the operating system at any
//! time. Replacing it is a short exchange: the manager says what to do
//! next (clear all registrations, register a binding, persist a
//! configuration), the caller does it and reports the outcome, until the
//! manager says that the exchange is finished and how it ended.

use vstd::prelude::*;
use crate::binding::{resolved, ConfigError, ShortcutBinding, ShortcutConfig};

verus! {

/// How the action last handed out went.
#[derive(Clone, Copy, Debug, PartialEq, Eq, Structural)]
pub enum Outcome {
    Done,
    Failed,
}

/// Why a shortcut could not be activated or updated.
#[derive(Clone, Copy, Debug, PartialEq, Eq, Structural)]
pub enum HotkeyError {
    /// The request named no valid shortcut.
    Config(ConfigError),
    /// The operating system rejected a registration or could not clear the
    /// registrations.
    Registration,
    /// The new shortcut is registered, but could not be persisted.
    Store,
    /// A request arrived during an exchange, or an outcome outside one.
    OutOfTurn,
}

impl HotkeyError {
    /// The message shown to whoever asked.
    pub fn message(&self) -> (text: &'static str)
        ensures
            text@ == match *self {
                HotkeyError::Config(_) => "Invalid key"@,
                HotkeyError::Registration => "Shortcut registration failed"@,
                HotkeyError::Store => "Shortcut could not be saved"@,
                HotkeyError::OutOfTurn => "Shortcut change already in progress"@,
            },
    {
        match self {
            HotkeyError::Config(error) => error.message(),
            HotkeyError::Registration => "Shortcut registration failed",
            HotkeyError::Store => "Shortcut could not be saved",
            HotkeyError::OutOfTurn => "Shortcut change already in progress",
        }
    }
}

/// What the caller is to do next.
#[derive(Debug, PartialEq, Eq)]
pub enum HotkeyAction {
    /// Remove every registration of this application, known or not.
    UnregisterAll,
    /// Register the binding, with the handler that publishes the toggle
    /// event.
    Register(ShortcutBinding),
    /// Write the configuration to the settings file.
    Persist(ShortcutConfig),
    /// The exchange is over; report the result to whoever asked.
    Finish(Result<(), HotkeyError>),
}

/// Where an exchange stands. Outside `Idle`, one action is outstanding.
#[derive(Debug, PartialEq, Eq)]
pub enum Stage {
    /// No exchange is under way.
    Idle,
    /// Waiting for the registrations to be cleared.
    Clearing { next: ShortcutBinding, record: Option<ShortcutConfig> },
    /// Waiting for `next` to be registered.
    Installing {
        next: ShortcutBinding,
        record: Option<ShortcutConfig>,
        previous: Option<ShortcutBinding>,
    },
    /// The new binding was rejected; waiting for the previous one, `binding`,
    /// to be registered again.
    Restoring { binding: ShortcutBinding },
    /// `next` is registered; waiting for its configuration to be persisted.
    Saving,
}

/// What a manager knows: the binding it holds registered, and the stage of
/// the exchange.
#[derive(Debug, PartialEq, Eq)]
pub struct HotkeyState {
    pub active: Option<ShortcutBinding>,
    pub stage: Stage,
}

impl HotkeyState {
    /// A configuration that waits to be persisted always stands for the
    /// binding it travels with, and while nothing is registered the manager
    /// holds nothing active.
    pub open spec fn wf(self) -> bool {
        match self.stage {
            Stage::Idle => true,
            Stage::Clearing { next, record } => record matches Some(config) ==> resolved(config@)
                == Some(next),
            Stage::Installing { next, record, previous } => {
                &&& self.active is None
                &&& record matches Some(config) ==> resolved(config@) == Some(next)
            },
            Stage::Restoring { binding } => self.active is None,
            Stage::Saving => self.active is Some,
        }
    }

    /// The state after a request to make `next` the shortcut. An idle
    /// manager opens an exchange; a busy one is left alone.
    pub open spec fn requested(self, next: ShortcutBinding, record: Option<ShortcutConfig>) -> Self {
        if self.stage is Idle {
            HotkeyState { active: self.active, stage: Stage::Clearing { next, record } }
        } else {
            self
        }
    }

    /// The answer to a request: clear the registrations first, whatever the
    /// manager believes to be registered.
    pub open spec fn request_response(self) -> HotkeyAction {
        if self.stage is Idle {
            HotkeyAction::UnregisterAll
        } else {
            HotkeyAction::Finish(Err(HotkeyError::OutOfTurn))
        }
    }

    /// The state after the outstanding action went as `outcome` says.
    pub open spec fn advanced(self, outcome: Outcome) -> Self {
        match self.stage {
            Stage::Idle => self,
            Stage::Clearing { next, record } => match outcome {
                Outcome::Done => HotkeyState {
                    active: None,
                    stage: Stage::Installing { next, record, previous: self.active },
                },
                Outcome::Failed => HotkeyState { active: self.active, stage: Stage::Idle },
            },
            Stage::Installing { next, record, previous } => match outcome {
                Outcome::Done => match record {
                    Some(config) => HotkeyState { active: Some(next), stage: Stage::Saving },
                    None => HotkeyState { active: Some(next), stage: Stage::Idle },
                },
                Outcome::Failed => match previous {
                    Some(binding) => HotkeyState {
                        active: None,
                        stage: Stage::Restoring { binding },
                    },
                    None => HotkeyState { active: None, stage: Stage::Idle },
                },
            },
            Stage::Restoring { binding } => match outcome {
                Outcome::Done => HotkeyState { active: Some(binding), stage: Stage::Idle },
                Outcome::Failed => HotkeyState { active: None, stage: Stage::Idle },
            },
            Stage::Saving => HotkeyState { active: self.active, stage: Stage::Idle },
        }
    }

    /// The answer to an outcome: the next action, or the end of the
    /// exchange with its result.
    pub open spec fn response(self, outcome: Outcome) -> HotkeyAction {
        match self.stage {
            Stage::Idle => HotkeyAction::Finish(Err(HotkeyError::OutOfTurn)),
            Stage::Clearing { next, record } => match outcome {
                Outcome::Done => HotkeyAction::Register(next),
                Outcome::Failed => HotkeyAction::Finish(Err(HotkeyError::Registration)),
            },
            Stage::Installing { next, record, previous } => match outcome {
                Outcome::Done => match record {
                    Some(config) => HotkeyAction::Persist(config),
                    None => HotkeyAction::Finish(Ok(())),
                },
                Outcome::Failed => match previous {
                    Some(binding) => HotkeyAction::Register(binding),
                    None => HotkeyAction::Finish(Err(HotkeyError::Registration)),
                },
            },
            Stage::Restoring { binding } => HotkeyAction::Finish(Err(HotkeyError::Registration)),
            Stage::Saving => match outcome {
                Outcome::Done => HotkeyAction::Finish(Ok(())),
                Outcome::Failed => HotkeyAction::Finish(Err(HotkeyError::Store)),
            },
        }
    }
}

/// Every request and every outcome leaves a well-formed state well-formed.
pub proof fn lemma_wf_is_kept(
    state: HotkeyState,
    next: ShortcutBinding,
    record: Option<ShortcutConfig>,
    outcome: Outcome,
)
    requires
        state.wf(),
    ensures
        (record matches Some(config) ==> resolved(config@) == Some(next)) ==> state.requested(
            next,
            record,
        ).wf(),
        state.advanced(outcome).wf(),
{
}

/// The state after an update request, and the answer to it: a
/// configuration whose key token names no key changes nothing; any other
/// is a request for the binding it stands for, to be persisted once it is
/// registered.
pub open spec fn updated(state: HotkeyState, config: ShortcutConfig) -> HotkeyState {
    match resolved(config@) {
        Some(binding) => state.requested(binding, Some(config)),
        None => state,
    }
}

/// The answer to an update request.
pub open spec fn update_response(state: HotkeyState, config: ShortcutConfig) -> HotkeyAction {
    match resolved(config@) {
        Some(binding) => state.request_response(),
        None => HotkeyAction::Finish(Err(HotkeyError::Config(ConfigError::InvalidKey))),
    }
}

/// Whether a key went down or up.
#[derive(Clone, Copy, Debug, PartialEq, Eq, Structural)]
pub enum KeyState {
    Pressed,
    Released,
}

/// The name of the event published when the shortcut is pressed.
pub fn toggle_event_name() -> (name: &'static str)
    ensures
        name@ == "toggle_recording"@,
{
    "toggle_recording"
}

/// The event to publish when the registered shortcut changes state: the
/// toggle event, once, when it goes down, and nothing when it comes up.
pub fn event_on(state: KeyState) -> (event: Option<&'static str>)
    ensures
        event is Some <==> state == KeyState::Pressed,
        event matches Some(name) ==> name@ == "toggle_recording"@,
{
    match state {
        KeyState::Pressed => Some(toggle_event_name()),
        KeyState::Released => None,
    }
}

/// Manages the one global shortcut of the toggle action.
pub struct HotkeyManager {
    state: HotkeyState,
}

impl HotkeyManager {
    #[verifier::type_invariant]
    spec fn inv(self) -> bool {
        self.state.wf()
    }

    /// What the manager knows.
    pub closed spec fn state(&self) -> HotkeyState {
        self.state
    }

    /// A manager that holds nothing registered.
    pub fn new() -> (manager: Self)
        ensures
            manager.state() == (HotkeyState { active: None, stage: Stage::Idle }),
            manager.state().wf(),
    {
        HotkeyManager { state: HotkeyState { active: None, stage: Stage::Idle } }
    }

    /// The binding the manager holds registered.
    pub fn active(&self) -> (binding: Option<ShortcutBinding>)
        ensures
            binding == self.state().active,
    {
        self.state.active
    }

    /// Whether no exchange is under way.
    pub fn is_idle(&self) -> (idle: bool)
        ensures
            idle == self.state().stage is Idle,
    {
        match &self.state.stage {
            Stage::Idle => true,
            _ => false,
        }
    }

    /// Opens an exchange for `next`, if the manager is idle.
    fn request(&mut self, next: ShortcutBinding, record: Option<ShortcutConfig>) -> (action:
        HotkeyAction)
        requires
            record matches Some(config) ==> resolved(config@) == Some(next),
        ensures
            final(self).state() == old(self).state().requested(next, record),
            action == old(self).state().request_response(),
            final(self).state().wf(),
    {
        proof {
            use_type_invariant(&*self);
        }
        if !self.is_idle() {
            return HotkeyAction::Finish(Err(HotkeyError::OutOfTurn));
        }
        self.state.stage = Stage::Clearing { next, record };
        HotkeyAction::UnregisterAll
    }

    /// Asks to make `binding` the registered shortcut, replacing whatever
    /// is registered. Nothing is persisted.
    ///
    /// The first action is always to clear the registrations. A manager in
    /// the middle of an exchange refuses and is left as it was.
    pub fn activate(&mut self, binding: ShortcutBinding) -> (action: HotkeyAction)
        ensures
            final(self).state() == old(self).state().requested(binding, None),
            action == old(self).state().request_response(),
            final(self).state().wf(),
    {
        self.request(binding, None)
    }

    /// Asks to replace the shortcut by the one the tokens stand for, and to
    /// persist the tokens once it is registered.
    ///
    /// Fails with `InvalidKey`, changing nothing, exactly when the key
    /// token names no key. Modifier tokens that name no modifier are
    /// dropped; no modifiers at all is a bare key.
    pub fn update(&mut self, modifiers: Vec<String>, key: String) -> (action: HotkeyAction)
        ensures
            final(self).state() == updated(
                old(self).state(),
                (ShortcutConfig { modifiers, key }),
            ),
            action == update_response(old(self).state(), (ShortcutConfig { modifiers, key })),
            final(self).state().wf(),
    {
        proof {
            use_type_invariant(&*self);
        }
        let config = ShortcutConfig { modifiers, key };
        match config.resolve() {
            Ok(binding) => self.request(binding, Some(config)),
            Err(error) => HotkeyAction::Finish(Err(HotkeyError::Config(error))),
        }
    }

    /// Takes the outcome of the action last handed out and answers with
    /// the next one.
    ///
    /// Once the registrations are cleared the new binding is registered.
    /// If it is rejected, the previous binding is registered again and the
    /// exchange ends with `Registration`. Only once the new binding is
    /// registered is its configuration persisted.
    pub fn advance(&mut self, outcome: Outcome) -> (action: HotkeyAction)
        ensures
            final(self).state() == old(self).state().advanced(outcome),
            action == old(self).state().response(outcome),
            final(self).state().wf(),
    {
        proof {
            use_type_invariant(&*self);
        }
        let mut stage = Stage::Idle;
        core::mem::swap(&mut self.state.stage, &mut stage);
        match stage {
            Stage::Idle => HotkeyAction::Finish(Err(HotkeyError::OutOfTurn)),
            Stage::Clearing { next, record } => match outcome {
                Outcome::Done => {
                    let previous = self.state.active;
                    self.state = HotkeyState {
                        active: None,
                        stage: Stage::Installing { next, record, previous },
                    };
                    HotkeyAction::Register(next)
                },
                Outcome::Failed => HotkeyAction::Finish(Err(HotkeyError::Registration)),
            },
            Stage::Installing { next, record, previous } => match outcome {
                Outcome::Done => match record {
                    Some(config) => {
                        self.state = HotkeyState { active: Some(next), stage: Stage::Saving };
                        HotkeyAction::Persist(config)
                    },
                    None => {
                        self.state.active = Some(next);
                        HotkeyAction::Finish(Ok(()))
                    },
                },
                Outcome::Failed => match previous {
                    Some(binding) => {
                        self.state.stage = Stage::Restoring { binding };
                        HotkeyAction::Register(binding)
                    },
                    None => HotkeyAction::Finish(Err(HotkeyError::Registration)),
                },
            },
            Stage::Restoring { binding } => match outcome {
                Outcome::Done => {
                    self.state.active = Some(binding);
                    HotkeyAction::Finish(Err(HotkeyError::Registration))
                },
                Outcome::Failed => HotkeyAction::Finish(Err(HotkeyError::Registration)),
            },
            Stage::Saving => match outcome {
                Outcome::Done => HotkeyAction::Finish(Ok(())),
                Outcome::Failed => HotkeyAction::Finish(Err(HotkeyError::Store)),
            },
        }
    }
}

} // verus!
