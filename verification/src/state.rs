//! The application's control state.
//!
//! Besides the camera pose, the demo's mutable state consists of plain
//! values: whether it should terminate, which shader program is active, and
//! which sample density the mesh uses. This module holds that state and the
//! exact effect of every command on it; the holder of the graphics resources
//! applies the state (regenerating the mesh, selecting the program) after
//! each change.

use vstd::prelude::*;
use crate::mesh::{SAMPLE_LEVELS, SAMPLE_START_IDX};

verus! {

/// The control state of the running demo.
#[derive(Clone, Copy, Debug, PartialEq, Eq, Structural)]
pub struct AppState {
    /// Flag to terminate the program.
    pub should_terminate: bool,
    /// Index of the active shader program.
    pub used_program_idx: usize,
    /// How many shader programs are loaded.
    pub program_count: usize,
    /// Index into the sample-density table that determines the mesh's step
    /// count.
    pub samples_idx: usize,
}

impl AppState {
    /// Well-formedness: at least one program is loaded, the active program
    /// exists, and the sample density is a valid table index.
    pub open spec fn wf(self) -> bool {
        &&& self.program_count >= 1
        &&& self.used_program_idx < self.program_count
        &&& self.samples_idx < SAMPLE_LEVELS
    }

    /// Initializes the control state: not terminating, the first of the
    /// given programs active, and the startup sample density selected.
    pub fn new(program_count: usize) -> (state: AppState)
        requires
            program_count >= 1,
        ensures
            state == (AppState {
                should_terminate: false,
                used_program_idx: 0,
                program_count: program_count,
                samples_idx: SAMPLE_START_IDX,
            }),
            state.wf(),
    {
        AppState {
            should_terminate: false,
            used_program_idx: 0,
            program_count: program_count,
            samples_idx: SAMPLE_START_IDX,
        }
    }

    /// Requests termination of the event loop. Nothing else changes.
    pub fn terminate(&mut self)
        ensures
            *final(self) == (AppState { should_terminate: true, ..*old(self) }),
    {
        self.should_terminate = true;
    }

    /// Selects the next shader program, wrapping around after the last one.
    pub fn cycle_programs(&mut self)
        requires
            old(self).wf(),
        ensures
            *final(self) == (AppState {
                used_program_idx: ((old(self).used_program_idx + 1) % (old(
                    self,
                ).program_count as int)) as usize,
                ..*old(self)
            }),
            final(self).wf(),
    {
        self.used_program_idx = (self.used_program_idx + 1) % self.program_count;
    }

    /// Selects the next denser sample level, staying at the last table entry
    /// once it is reached. The caller regenerates the mesh afterwards.
    pub fn increase_samples(&mut self)
        requires
            old(self).wf(),
        ensures
            *final(self) == (AppState {
                samples_idx: if old(self).samples_idx + 1 < SAMPLE_LEVELS {
                    (old(self).samples_idx + 1) as usize
                } else {
                    (SAMPLE_LEVELS - 1) as usize
                },
                ..*old(self)
            }),
            final(self).wf(),
    {
        let next = self.samples_idx + 1;
        self.samples_idx = if next <= SAMPLE_LEVELS - 1 {
            next
        } else {
            SAMPLE_LEVELS - 1
        };
    }

    /// Selects the next coarser sample level; at the first table entry
    /// nothing changes. The caller regenerates the mesh afterwards.
    pub fn decrease_samples(&mut self)
        requires
            old(self).wf(),
        ensures
            *final(self) == (AppState {
                samples_idx: if old(self).samples_idx == 0 {
                    0usize
                } else {
                    (old(self).samples_idx - 1) as usize
                },
                ..*old(self)
            }),
            final(self).wf(),
    {
        if self.samples_idx == 0 {
            return ;
        }
        self.samples_idx = self.samples_idx - 1;
    }

    /// The index of the active shader program.
    pub fn current_program_index(&self) -> (idx: usize)
        ensures
            idx == self.used_program_idx,
    {
        self.used_program_idx
    }
}

} // verus!
