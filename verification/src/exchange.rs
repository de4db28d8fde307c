//! The manager together with what it acts on: the registrations the
//! operating system holds, the persisted configuration, and the action the
//! caller was handed. The laws of the shortcut exchange are stated and
//! proved over this model.

use vstd::prelude::*;
use crate::binding::{loaded, resolved, ConfigText, ShortcutBinding, ShortcutConfig};
use crate::hotkey::{
    update_response, updated, HotkeyAction, HotkeyError, HotkeyState, Outcome, Stage,
};

verus! {

/// A manager and its surroundings.
pub struct System {
    /// What the manager knows.
    pub manager: HotkeyState,
    /// The registrations the operating system holds for the toggle action.
    pub registered: Seq<ShortcutBinding>,
    /// The configuration in the settings file.
    pub stored: Option<ConfigText>,
    /// The action the caller was handed and has yet to report on.
    pub handed: Option<HotkeyAction>,
}

/// One thing that happens to a manager.
pub enum Step {
    /// A request to activate a binding.
    Activate(ShortcutBinding),
    /// A request to update the shortcut from tokens.
    Update(ShortcutConfig),
    /// The caller reports how the action it was handed went.
    Report(Outcome),
}

/// The registrations that stand for what the manager holds active: that
/// one binding, or none.
pub open spec fn registrations_of(active: Option<ShortcutBinding>) -> Seq<ShortcutBinding> {
    match active {
        Some(binding) => seq![binding],
        None => seq![],
    }
}

/// The action a caller holds after the manager answered: none once the
/// exchange is finished.
pub open spec fn held(answer: HotkeyAction) -> Option<HotkeyAction> {
    match answer {
        HotkeyAction::Finish(_) => None,
        _ => Some(answer),
    }
}

impl System {
    /// A fresh start: a new manager, nothing registered, and whatever the
    /// settings file holds.
    pub open spec fn fresh(stored: Option<ConfigText>) -> System {
        System {
            manager: HotkeyState { active: None, stage: Stage::Idle },
            registered: seq![],
            stored,
            handed: None,
        }
    }

    /// The registrations after the caller carried out the action it held.
    /// An action that failed changed nothing.
    pub open spec fn registered_after(self, outcome: Outcome) -> Seq<ShortcutBinding> {
        match (self.handed, outcome) {
            (Some(HotkeyAction::UnregisterAll), Outcome::Done) => seq![],
            (Some(HotkeyAction::Register(binding)), Outcome::Done) => self.registered.push(binding),
            _ => self.registered,
        }
    }

    /// The settings file after the caller carried out the action it held.
    pub open spec fn stored_after(self, outcome: Outcome) -> Option<ConfigText> {
        match (self.handed, outcome) {
            (Some(HotkeyAction::Persist(config)), Outcome::Done) => Some(config@),
            _ => self.stored,
        }
    }

    /// The system after one step. A request that the manager refuses leaves
    /// the caller with the action it held.
    pub open spec fn after(self, step: Step) -> System {
        match step {
            Step::Activate(binding) => System {
                manager: self.manager.requested(binding, None),
                handed: if self.manager.stage is Idle {
                    held(self.manager.request_response())
                } else {
                    self.handed
                },
                ..self
            },
            Step::Update(config) => System {
                manager: updated(self.manager, config),
                handed: if self.manager.stage is Idle {
                    held(update_response(self.manager, config))
                } else {
                    self.handed
                },
                ..self
            },
            Step::Report(outcome) => System {
                manager: self.manager.advanced(outcome),
                registered: self.registered_after(outcome),
                stored: self.stored_after(outcome),
                handed: held(self.manager.response(outcome)),
            },
        }
    }

    /// The system after a sequence of steps.
    pub open spec fn after_all(self, steps: Seq<Step>) -> System
        decreases steps.len(),
    {
        if steps.len() == 0 {
            self
        } else {
            self.after_all(steps.drop_last()).after(steps.last())
        }
    }

    /// The caller holds exactly the action the manager waits for, and a
    /// configuration on its way to the settings file stands for the binding
    /// that was just registered.
    pub open spec fn in_step(self) -> bool {
        &&& self.manager.wf()
        &&& match self.manager.stage {
            Stage::Idle => self.handed is None,
            Stage::Clearing { next, record } => self.handed == Some(HotkeyAction::UnregisterAll),
            Stage::Installing { next, record, previous } => self.handed == Some(
                HotkeyAction::Register(next),
            ),
            Stage::Restoring { binding } => self.handed == Some(HotkeyAction::Register(binding)),
            Stage::Saving => self.handed matches Some(HotkeyAction::Persist(config))
                && resolved(config@) == self.manager.active,
        }
    }

    /// The operating system holds exactly what the manager holds active.
    pub open spec fn mirrored(self) -> bool {
        self.registered == registrations_of(self.manager.active)
    }

    /// What is persisted, if anything valid is, is the binding that is
    /// registered.
    pub open spec fn settled(self) -> bool {
        self.manager.active == Some(loaded(self.stored))
    }
}

/// A fresh system is in step and mirrored.
pub proof fn lemma_fresh_is_sound(stored: Option<ConfigText>)
    ensures
        System::fresh(stored).in_step(),
        System::fresh(stored).mirrored(),
        System::fresh(stored).registered.len() == 0,
{
}

/// Caller and manager stay in step, whatever happens.
pub proof fn lemma_step_keeps_in_step(system: System, step: Step)
    requires
        system.in_step(),
    ensures
        system.after(step).in_step(),
{
}

/// While the operating system holds what the manager believes it holds, it
/// goes on doing so after every step.
pub proof fn lemma_step_keeps_mirror(system: System, step: Step)
    requires
        system.in_step(),
        system.mirrored(),
    ensures
        system.after(step).mirrored(),
{
    let next = system.after(step);
    assert(next.registered =~= registrations_of(next.manager.active));
}

/// Clearing the registrations brings the operating system and the manager
/// together, whatever registrations had been left behind.
pub proof fn lemma_clearing_heals(system: System)
    requires
        system.in_step(),
        system.manager.stage is Clearing,
    ensures
        system.after(Step::Report(Outcome::Done)).mirrored(),
        system.after(Step::Report(Outcome::Done)).registered.len() == 0,
{
}

/// A mirrored system has at most one registration.
pub proof fn lemma_mirrored_is_single(system: System)
    requires
        system.mirrored(),
    ensures
        system.registered.len() <= 1,
{
}

/// After any sequence of requests and reports, at most one registration of
/// the toggle shortcut exists, and it is the one the manager holds active.
pub proof fn lemma_at_most_one_registration(system: System, steps: Seq<Step>)
    requires
        system.in_step(),
        system.mirrored(),
    ensures
        system.after_all(steps).in_step(),
        system.after_all(steps).mirrored(),
        system.after_all(steps).registered.len() <= 1,
    decreases steps.len(),
{
    if steps.len() > 0 {
        lemma_at_most_one_registration(system, steps.drop_last());
        let before = system.after_all(steps.drop_last());
        lemma_step_keeps_in_step(before, steps.last());
        lemma_step_keeps_mirror(before, steps.last());
    }
    lemma_mirrored_is_single(system.after_all(steps));
}

/// The settings file changes only when a configuration was persisted, which
/// happens only after its binding was registered; what is then persisted
/// loads as the binding that is active.
pub proof fn lemma_store_follows_registration(system: System, step: Step)
    requires
        system.in_step(),
        system.after(step).stored != system.stored,
    ensures
        step == Step::Report(Outcome::Done),
        system.manager.stage is Saving,
        system.after(step).manager.active == system.manager.active,
        system.after(step).settled(),
{
}

/// An update whose key token names no key fails with `InvalidKey` and
/// leaves everything as it was: the active binding, the registrations and
/// the settings file.
pub proof fn lemma_invalid_update_changes_nothing(system: System, config: ShortcutConfig)
    requires
        system.in_step(),
        resolved(config@) is None,
    ensures
        update_response(system.manager, config) == HotkeyAction::Finish(
            Err(HotkeyError::Config(crate::binding::ConfigError::InvalidKey)),
        ),
        system.after(Step::Update(config)) == system,
{
}

/// An update that goes through: the registrations are cleared, the new
/// binding is registered, its configuration is persisted. Afterwards the
/// new binding is the only registration, and a fresh start from the
/// settings file loads that same binding.
pub proof fn lemma_update_round_trip(system: System, config: ShortcutConfig, binding: ShortcutBinding)
    requires
        system.in_step(),
        system.manager.stage is Idle,
        resolved(config@) == Some(binding),
    ensures
        ({
            let cleared = system.after(Step::Update(config)).after(Step::Report(Outcome::Done));
            let installed = cleared.after(Step::Report(Outcome::Done));
            let saved = installed.after(Step::Report(Outcome::Done));
            &&& cleared.handed == Some(HotkeyAction::Register(binding))
            &&& installed.handed == Some(HotkeyAction::Persist(config))
            &&& installed.manager.response(Outcome::Done) == HotkeyAction::Finish(Ok(()))
            &&& saved.manager == (HotkeyState { active: Some(binding), stage: Stage::Idle })
            &&& saved.registered == seq![binding]
            &&& saved.stored == Some(config@)
            &&& loaded(saved.stored) == binding
        }),
{
    let cleared = system.after(Step::Update(config)).after(Step::Report(Outcome::Done));
    let installed = cleared.after(Step::Report(Outcome::Done));
    let saved = installed.after(Step::Report(Outcome::Done));
    assert(saved.registered =~= seq![binding]);
}

/// An update that the operating system rejects: the previous binding is
/// registered again, and the exchange ends with `Registration`. Afterwards
/// the manager, the registrations and the settings file are as they were
/// before the request.
pub proof fn lemma_rejected_update_restores(
    system: System,
    config: ShortcutConfig,
    previous: ShortcutBinding,
)
    requires
        system.in_step(),
        system.mirrored(),
        system.manager.stage is Idle,
        system.manager.active == Some(previous),
        resolved(config@) is Some,
    ensures
        ({
            let rejected = system.after(Step::Update(config)).after(
                Step::Report(Outcome::Done),
            ).after(Step::Report(Outcome::Failed));
            let restored = rejected.after(Step::Report(Outcome::Done));
            &&& rejected.handed == Some(HotkeyAction::Register(previous))
            &&& rejected.manager.response(Outcome::Done) == HotkeyAction::Finish(
                Err(HotkeyError::Registration),
            )
            &&& restored == system
        }),
{
    let rejected = system.after(Step::Update(config)).after(Step::Report(Outcome::Done)).after(
        Step::Report(Outcome::Failed),
    );
    let restored = rejected.after(Step::Report(Outcome::Done));
    assert(restored.registered =~= system.registered);
}

/// However an exchange goes, the settings file is written only in one that
/// ends well: a rejected registration never reaches it.
pub proof fn lemma_failed_registration_keeps_store(system: System, outcome: Outcome)
    requires
        system.in_step(),
        system.manager.response(outcome) == HotkeyAction::Finish(Err(HotkeyError::Registration)),
    ensures
        system.after(Step::Report(outcome)).stored == system.stored,
{
}

} // verus!
