use vstd::prelude::*;

use crate::layout::AudioIoLayout;
use crate::processor::{process_block, processed_by};

verus! {

/// Outcome of one processing call.  Effects with a tail would report more; this one
/// always keeps being called.
#[derive(Debug, Clone, Copy, PartialEq, Eq, Structural)]
pub enum ProcessStatus {
    Normal,
}

/// Where an instance stands in its session.
#[derive(Debug, Clone, Copy, PartialEq, Eq, Structural)]
pub enum LifecycleState {
    Uninitialized,
    Initialized,
    Active,
}

/// Session-wide block sizes, fixed at initialization.
#[derive(Debug, Clone, Copy, PartialEq, Eq, Structural)]
pub struct BufferConfig {
    pub min_buffer_size: Option<u32>,
    pub max_buffer_size: u32,
}

/// The mid/side swapping effect: the lifecycle of one instance, and the session
/// it was initialized for.  The effect keeps no audio state of its own.
#[derive(Debug)]
pub struct MidSideSwapper {
    state: LifecycleState,
    layout: Option<AudioIoLayout>,
    config: Option<BufferConfig>,
}

impl MidSideSwapper {
    pub closed spec fn spec_state(&self) -> LifecycleState {
        self.state
    }

    /// The layout of the current session, once initialized.
    pub closed spec fn spec_layout(&self) -> Option<AudioIoLayout> {
        self.layout
    }

    /// The buffer configuration of the current session, once initialized.
    pub closed spec fn spec_config(&self) -> Option<BufferConfig> {
        self.config
    }

    /// A fresh instance, not yet initialized.
    pub fn new() -> (r: Self)
        ensures
            r.spec_state() == LifecycleState::Uninitialized,
            r.spec_layout() is None,
            r.spec_config() is None,
    {
        MidSideSwapper { state: LifecycleState::Uninitialized, layout: None, config: None }
    }

    pub fn state(&self) -> (r: LifecycleState)
        ensures
            r == self.spec_state(),
    {
        self.state
    }

    pub fn is_active(&self) -> (r: bool)
        ensures
            r == (self.spec_state() == LifecycleState::Active),
    {
        self.state == LifecycleState::Active
    }

    /// Starts a session in `layout` with `config`.  An effect with state would size
    /// its buffers here; this one has nothing to prepare and always succeeds.
    pub fn initialize(&mut self, layout: AudioIoLayout, config: &BufferConfig) -> (r: bool)
        ensures
            r,
            final(self).spec_state() == LifecycleState::Initialized,
            final(self).spec_layout() == Some(layout),
            final(self).spec_config() == Some(*config),
    {
        self.state = LifecycleState::Initialized;
        self.layout = Some(layout);
        self.config = Some(*config);
        true
    }

    /// (Re)starts the stream of the current session.  There is no retained audio
    /// state to clear, and nothing is allocated.
    pub fn reset(&mut self)
        requires
            old(self).spec_state() != LifecycleState::Uninitialized,
        ensures
            final(self).spec_state() == LifecycleState::Active,
            final(self).spec_layout() == old(self).spec_layout(),
            final(self).spec_config() == old(self).spec_config(),
    {
        self.state = LifecycleState::Active;
    }

    /// Processes one block in place with the stereo frame transform `frame`; see
    /// `process_block`.  The instance itself is left as it was.
    pub fn process<S: Copy, F: Fn(S, S) -> (S, S)>(
        &mut self,
        buffer: &mut [&mut [S]],
        frame: &F,
    ) -> (status: ProcessStatus)
        requires
            old(self).spec_state() == LifecycleState::Active,
            forall|l: S, r: S| frame.requires((l, r)),
        ensures
            status == ProcessStatus::Normal,
            *final(self) == *old(self),
            processed_by(old(buffer)@, final(buffer)@, *frame),
    {
        process_block(buffer, frame)
    }
}

impl Default for MidSideSwapper {
    /// A fresh instance, as `new` makes it.
    fn default() -> (r: Self)
        ensures
            r.spec_state() == LifecycleState::Uninitialized,
            r.spec_layout() is None,
            r.spec_config() is None,
    {
        MidSideSwapper::new()
    }
}

} // verus!
