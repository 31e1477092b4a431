//! The process-lifetime holder of the recognition engine: the boundary
//! through which a host calls in, and which refuses calls made before it has
//! been given its resources.

use vstd::prelude::*;
use crate::frame::GrayImage;
use crate::matcher::{BoundingBox, locate_single_spec};
use crate::resources::{VitalKind, TimerKind, CooldownGroup};
use crate::extractor::{
    CoreError,
    StateExtractor,
    readout_spec,
    lift_match,
    group_active_spec,
    named_active_spec,
};

verus! {

/// Holds the engine once it is initialised.
pub struct SharedContext {
    pub engine: Option<StateExtractor>,
}

impl SharedContext {
    pub open spec fn wf(&self) -> bool {
        self.engine matches Some(e) ==> e.wf()
    }

    /// A context that is not initialised yet.
    pub fn new() -> (r: SharedContext)
        ensures
            r.engine is None,
    {
        SharedContext { engine: None }
    }

    /// Installs the engine; every later call reads through it.
    pub fn initialize(&mut self, engine: StateExtractor)
        ensures
            final(self).engine == Some(engine),
    {
        self.engine = Some(engine);
    }

    pub fn is_initialized(&self) -> (r: bool)
        ensures
            r == self.engine is Some,
    {
        self.engine.is_some()
    }

    pub fn locate_skills_icon(&self, img: &GrayImage) -> (r: Result<Option<BoundingBox>, CoreError>)
        requires
            self.wf(),
            img.wf(),
        ensures
            r == match self.engine {
                None => Err(CoreError::NotInitialized),
                Some(e) => lift_match(
                    locate_single_spec(
                        img@,
                        e.resources.skills_icon@,
                        e.resources.anchor_confidence as int,
                    ),
                ),
            },
    {
        match &self.engine {
            None => Err(CoreError::NotInitialized),
            Some(e) => e.locate_skills_icon(img),
        }
    }

    pub fn locate_action_bar(&self, img: &GrayImage) -> (r: Result<Option<BoundingBox>, CoreError>)
        requires
            self.wf(),
            img.wf(),
        ensures
            r == match self.engine {
                None => Err(CoreError::NotInitialized),
                Some(e) => lift_match(
                    locate_single_spec(
                        img@,
                        e.resources.arrow_left@,
                        e.resources.anchor_confidence as int,
                    ),
                ),
            },
    {
        match &self.engine {
            None => Err(CoreError::NotInitialized),
            Some(e) => e.locate_action_bar(img),
        }
    }

    pub fn get_vital(&self, img: &GrayImage, anchor: Option<BoundingBox>, kind: VitalKind) -> (r:
        Result<Option<i64>, CoreError>)
        requires
            img.wf(),
        ensures
            r == match self.engine {
                None => Err(CoreError::NotInitialized),
                Some(e) => Ok(
                    readout_spec(
                        img@,
                        anchor,
                        e.resources.vital_layout_spec(kind),
                        e.digit_filter,
                        e.resources.digit_table@,
                        1000,
                    ),
                ),
            },
    {
        match &self.engine {
            None => Err(CoreError::NotInitialized),
            Some(e) => Ok(e.get_vital(img, anchor, kind)),
        }
    }

    pub fn get_timer(&self, img: &GrayImage, anchor: Option<BoundingBox>, kind: TimerKind) -> (r:
        Result<Option<i64>, CoreError>)
        requires
            img.wf(),
        ensures
            r == match self.engine {
                None => Err(CoreError::NotInitialized),
                Some(e) => Ok(
                    readout_spec(
                        img@,
                        anchor,
                        e.resources.timer_layout_spec(kind),
                        e.time_filter,
                        e.resources.time_table@,
                        60,
                    ),
                ),
            },
    {
        match &self.engine {
            None => Err(CoreError::NotInitialized),
            Some(e) => Ok(e.get_timer(img, anchor, kind)),
        }
    }

    pub fn cooldown_group_active(&self, img: &GrayImage, group: CooldownGroup) -> (r: Result<
        bool,
        CoreError,
    >)
        requires
            self.wf(),
            img.wf(),
        ensures
            r == match self.engine {
                None => Err(CoreError::NotInitialized),
                Some(e) => group_active_spec(e.resources, img@, group),
            },
    {
        match &self.engine {
            None => Err(CoreError::NotInitialized),
            Some(e) => e.cooldown_group_active(img, group),
        }
    }

    pub fn cooldown_named_active(&self, img: &GrayImage, name: &String) -> (r: Result<
        bool,
        CoreError,
    >)
        requires
            self.wf(),
            img.wf(),
        ensures
            r == match self.engine {
                None => Err(CoreError::NotInitialized),
                Some(e) => named_active_spec(e.resources, img@, name@),
            },
    {
        match &self.engine {
            None => Err(CoreError::NotInitialized),
            Some(e) => e.cooldown_named_active(img, name),
        }
    }
}

} // verus!
