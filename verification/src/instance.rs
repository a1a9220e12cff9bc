//! What an operation reads of a live plugin instance.

use vstd::prelude::*;

verus! {

/// Where an instance stands between activation and audio processing.
#[derive(Clone, Copy, PartialEq, Eq, Debug, Structural)]
pub enum InstanceState {
    Inactive,
    ActiveStopped,
    ActiveProcessing,
}

impl InstanceState {
    /// Activated, whether or not it processes audio right now.
    pub open spec fn spec_is_active(self) -> bool {
        self != InstanceState::Inactive
    }

    #[verifier::when_used_as_spec(spec_is_active)]
    pub fn is_active(self) -> (active: bool)
        ensures
            active == self.spec_is_active(),
    {
        match self {
            InstanceState::Inactive => false,
            InstanceState::ActiveStopped => true,
            InstanceState::ActiveProcessing => true,
        }
    }
}

/// Handle of a plugin instance, in whatever state it is reported to be.
#[derive(Clone, Copy, PartialEq, Eq, Debug, Structural)]
pub struct PluginInstance {
    state: InstanceState,
}

impl PluginInstance {
    pub closed spec fn spec_state(&self) -> InstanceState {
        self.state
    }

    /// Activated, whether or not it processes audio right now.
    pub open spec fn spec_is_active(&self) -> bool {
        self.spec_state().spec_is_active()
    }

    /// The handle of an instance that is reported to be in `state`.
    pub fn new(state: InstanceState) -> (plugin: PluginInstance)
        ensures
            plugin.spec_state() == state,
    {
        PluginInstance { state }
    }

    #[verifier::when_used_as_spec(spec_state)]
    pub fn state(&self) -> (state: InstanceState)
        ensures
            state == self.spec_state(),
    {
        self.state
    }

    #[verifier::when_used_as_spec(spec_is_active)]
    pub fn is_active(&self) -> (active: bool)
        ensures
            active == self.spec_is_active(),
    {
        self.state.is_active()
    }

    /// The handle for work on an activated instance that is not processing
    /// audio: there is one exactly when the instance is in that state.
    pub fn stopped_processor(&self) -> (r: Option<StoppedPluginAudioProcessor>)
        ensures
            r is Some <==> self.spec_state() == InstanceState::ActiveStopped,
    {
        match self.state {
            InstanceState::ActiveStopped => Some(StoppedPluginAudioProcessor { stopped: () }),
            _ => None,
        }
    }
}

/// Handle of an instance that is activated and not processing audio. Holding
/// one is the evidence of that state; nothing else gives one out.
pub struct StoppedPluginAudioProcessor {
    stopped: (),
}

impl StoppedPluginAudioProcessor {
    /// The state that every such handle attests.
    pub open spec fn spec_state(&self) -> InstanceState {
        InstanceState::ActiveStopped
    }

    #[verifier::when_used_as_spec(spec_state)]
    pub fn state(&self) -> (state: InstanceState)
        ensures
            state == InstanceState::ActiveStopped,
    {
        InstanceState::ActiveStopped
    }
}

} // verus!
