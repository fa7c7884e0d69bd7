//! A scale taken in one of its modes.

use vstd::prelude::*;

use crate::interval::canonical::CanonicalInterval;
use crate::note::Note;
use crate::scale::mode::Mode;
use crate::scale::{scale_degrees, Scale};

verus! {

/// A parent scale together with the mode in which it is played.
pub struct ModalScale {
    pub scale: Scale,
    pub mode: Mode,
}

impl ModalScale {
    /// The steps of the parent scale, turned so that they begin on the
    /// degree of the mode.
    pub open spec fn steps(&self) -> Seq<CanonicalInterval> {
        self.scale@.shifted(self.mode.rank()).steps
    }

    /// The given scale in the given mode.
    pub fn new(scale: Scale, mode: Mode) -> (modal: Self)
        ensures
            modal.scale == scale,
            modal.mode == mode,
    {
        ModalScale { scale, mode }
    }

    /// The notes of the mode walked from `root`: those of the parent scale
    /// turned to begin on the degree of the mode. The parent scale must
    /// have a step.
    pub fn spell(&self, root: Note) -> (notes: Vec<Note>)
        requires
            self.scale.intervals@.len() > 0,
        ensures
            notes@ == scale_degrees(root, self.steps()),
    {
        self.scale.shift(self.mode.index()).spell(root)
    }
}

} // verus!
