//! Enumeration of device properties.
//!
//! The driver lists formats, inputs, outputs, controls, menu entries, frame sizes and frame
//! intervals one query at a time. The cursors here decide which query comes next and what a
//! query's outcome means; the caller performs each query and hands its outcome back. Errors are
//! the `errno` values the driver reported.
//!
//! A cursor is driven by a loop of this shape: ask [`IndexCursor::query`] (or the like) for the
//! next query, stop when there is none, perform it, and pass the outcome to `handle`, which either
//! yields an item or asks for another query.

use vstd::prelude::*;

use crate::controls::{Cid, ControlDesc, TextMenuItem};
use crate::format::{
    DiscreteFrameInterval, DiscreteFrameSize, FrameIntervals, FrameSizes, StepwiseFrameIntervals,
    StepwiseFrameSizes,
};
use crate::fract::Fract;
use crate::raw;
use crate::shared::{ControlFlags, CtrlType, FrmIvalType, FrmSizeType};

verus! {

/// The driver's answer to a query for an index past the end of a list.
pub const EINVAL: i32 = 22;

/// The error reported when the driver's answers contradict each other.
pub const EPROTO: i32 = 71;

/// Flag that asks the driver for the first control after the given identifier.
pub const CONTROL_FLAGS_NEXT_CTRL: u32 = 0x80000000;

/// Walks a list that the driver numbers from 0 and ends by answering `EINVAL` (formats, inputs,
/// outputs).
pub struct IndexCursor {
    next_index: u32,
    finished: bool,
}

impl View for IndexCursor {
    /// The next index to query, and whether the walk is over.
    type V = (u32, bool);

    closed spec fn view(&self) -> (u32, bool) {
        (self.next_index, self.finished)
    }
}

impl IndexCursor {
    /// A walk from index 0.
    pub fn new() -> (r: Self)
        ensures
            r@ == (0u32, false),
    {
        IndexCursor { next_index: 0, finished: false }
    }

    /// The index to query next, or `None` when the walk is over.
    pub fn query(&self) -> (r: Option<u32>)
        ensures
            r == (if self@.1 {
                None
            } else {
                Some(self@.0)
            }),
    {
        if self.finished {
            None
        } else {
            Some(self.next_index)
        }
    }

    /// Handles the outcome of querying the current index: an entry is yielded and the walk
    /// moves on; `EINVAL` ends the walk; any other error is yielded and ends the walk.
    pub fn handle<T>(&mut self, outcome: Result<T, i32>) -> (r: Option<Result<T, i32>>)
        requires
            !old(self)@.1,
        ensures
            match outcome {
                Ok(_) => r == Some(outcome) && final(self)@ == (
                    if old(self)@.0 < u32::MAX {
                        ((old(self)@.0 + 1) as u32, false)
                    } else {
                        (old(self)@.0, true)
                    }
                ),
                Err(e) => final(self)@ == (old(self)@.0, true) && r == (if e == EINVAL {
                    None
                } else {
                    Some(outcome)
                }),
            },
    {
        match outcome {
            Ok(v) => {
                if self.next_index < u32::MAX {
                    self.next_index = self.next_index + 1;
                } else {
                    self.finished = true;
                }
                Some(Ok(v))
            },
            Err(e) => {
                self.finished = true;
                if e == EINVAL {
                    None
                } else {
                    Some(Err(e))
                }
            },
        }
    }
}

/// Walks the controls of a device.
///
/// The walk first asks the driver for each next control with [`CONTROL_FLAGS_NEXT_CTRL`]. A
/// driver that does not support that flag answers `EINVAL`; the walk then probes the standard
/// user control identifiers one by one (skipping those the driver does not know) up to
/// `Cid::LASTP1`. Disabled controls are skipped.
pub struct ControlCursor {
    next_cid: u32,
    finished: bool,
    use_ctrl_flag_next_ctrl: bool,
}

/// The state of a control walk.
pub ghost struct ControlCursorView {
    pub next_cid: u32,
    pub finished: bool,
    pub use_ctrl_flag_next_ctrl: bool,
}

impl View for ControlCursor {
    type V = ControlCursorView;

    closed spec fn view(&self) -> ControlCursorView {
        ControlCursorView {
            next_cid: self.next_cid,
            finished: self.finished,
            use_ctrl_flag_next_ctrl: self.use_ctrl_flag_next_ctrl,
        }
    }
}

/// The control identifier to ask the driver for in state `v`, if the walk goes on.
pub open spec fn control_query(v: ControlCursorView) -> Option<u32> {
    if v.finished {
        None
    } else if v.use_ctrl_flag_next_ctrl {
        Some(v.next_cid | CONTROL_FLAGS_NEXT_CTRL)
    } else if v.next_cid >= Cid::LASTP1 {
        None
    } else {
        Some(v.next_cid)
    }
}

/// The state after moving past identifier `cid` one by one.
pub open spec fn control_step_past(v: ControlCursorView, cid: u32) -> ControlCursorView {
    if cid < u32::MAX {
        ControlCursorView { next_cid: (cid + 1) as u32, ..v }
    } else {
        ControlCursorView { next_cid: cid, finished: true, ..v }
    }
}

impl ControlCursor {
    /// A walk from the first user control.
    pub fn new() -> (r: Self)
        ensures
            r@ == (ControlCursorView {
                next_cid: Cid::BASE,
                finished: false,
                use_ctrl_flag_next_ctrl: true,
            }),
    {
        ControlCursor { next_cid: Cid::BASE, finished: false, use_ctrl_flag_next_ctrl: true }
    }

    /// The identifier (with flags) to query next, or `None` when the walk is over.
    pub fn query(&self) -> (r: Option<u32>)
        ensures
            r == control_query(self@),
    {
        if self.finished {
            None
        } else if self.use_ctrl_flag_next_ctrl {
            Some(self.next_cid | CONTROL_FLAGS_NEXT_CTRL)
        } else if self.next_cid >= Cid::LASTP1 {
            None
        } else {
            Some(self.next_cid)
        }
    }

    /// Handles the driver's answer to the current query: a control that is not disabled is
    /// yielded; a disabled one is skipped (`None`: query again); `EINVAL` switches to probing
    /// identifiers one by one; any other error is yielded and ends the walk.
    pub fn handle(&mut self, outcome: Result<raw::QueryCtrl, i32>) -> (r: Option<
        Result<ControlDesc, i32>,
    >)
        requires
            control_query(old(self)@) is Some,
        ensures
            match outcome {
                Ok(q) => {
                    &&& final(self)@ == (if old(self)@.use_ctrl_flag_next_ctrl {
                        ControlCursorView { next_cid: q.id, ..old(self)@ }
                    } else {
                        control_step_past(old(self)@, old(self)@.next_cid)
                    })
                    &&& if q.flags@ & ControlFlags::DISABLED == ControlFlags::DISABLED {
                        r is None
                    } else {
                        r matches Some(Ok(d)) && d.0 == q
                    }
                },
                Err(e) => if e == EINVAL {
                    r is None && final(self)@ == control_step_past(
                        ControlCursorView { use_ctrl_flag_next_ctrl: false, ..old(self)@ },
                        old(self)@.next_cid,
                    )
                } else {
                    r == Some(Err::<ControlDesc, i32>(e)) && final(self)@ == (ControlCursorView {
                        finished: true,
                        ..old(self)@
                    })
                },
            },
    {
        match outcome {
            Ok(q) => {
                if self.use_ctrl_flag_next_ctrl {
                    self.next_cid = q.id;
                } else {
                    self.step_past_current();
                }
                if q.flags.contains(ControlFlags::DISABLED) {
                    None
                } else {
                    Some(Ok(ControlDesc(q)))
                }
            },
            Err(e) => {
                if e == EINVAL {
                    self.use_ctrl_flag_next_ctrl = false;
                    self.step_past_current();
                    None
                } else {
                    self.finished = true;
                    Some(Err(e))
                }
            },
        }
    }

    fn step_past_current(&mut self)
        ensures
            final(self)@ == control_step_past(old(self)@, old(self)@.next_cid),
    {
        if self.next_cid < u32::MAX {
            self.next_cid = self.next_cid + 1;
        } else {
            self.finished = true;
        }
    }
}

/// Walks the entries of a menu control, from its minimum to its maximum value; indices the
/// driver does not know are skipped.
pub struct MenuCursor {
    cid: u32,
    next_index: u32,
    max_index: u32,
    finished: bool,
}

/// The state of a menu walk.
pub ghost struct MenuCursorView {
    pub cid: u32,
    pub next_index: u32,
    pub max_index: u32,
    pub finished: bool,
}

impl View for MenuCursor {
    type V = MenuCursorView;

    closed spec fn view(&self) -> MenuCursorView {
        MenuCursorView {
            cid: self.cid,
            next_index: self.next_index,
            max_index: self.max_index,
            finished: self.finished,
        }
    }
}

/// The menu index to query in state `v`, if the walk goes on.
pub open spec fn menu_query(v: MenuCursorView) -> Option<u32> {
    if v.finished || v.next_index > v.max_index {
        None
    } else {
        Some(v.next_index)
    }
}

/// The state after querying the current index.
pub open spec fn menu_advanced(v: MenuCursorView) -> MenuCursorView {
    if v.next_index < u32::MAX {
        MenuCursorView { next_index: (v.next_index + 1) as u32, ..v }
    } else {
        MenuCursorView { finished: true, ..v }
    }
}

impl MenuCursor {
    /// A walk over the entries of the menu control `ctrl`.
    pub fn new(ctrl: &ControlDesc) -> (r: Self)
        requires
            ctrl.0.type_@ == CtrlType::MENU,
        ensures
            r@ == (MenuCursorView {
                cid: ctrl.0.id,
                next_index: ctrl.0.minimum as u32,
                max_index: ctrl.0.maximum as u32,
                finished: false,
            }),
    {
        MenuCursor {
            cid: ctrl.0.id,
            next_index: ctrl.0.minimum as u32,
            max_index: ctrl.0.maximum as u32,
            finished: false,
        }
    }

    /// The control whose menu is walked.
    pub fn cid(&self) -> (r: u32)
        ensures
            r == self@.cid,
    {
        self.cid
    }

    /// The menu index to query next, or `None` when the walk is over.
    pub fn query(&self) -> (r: Option<u32>)
        ensures
            r == menu_query(self@),
    {
        if self.finished || self.next_index > self.max_index {
            None
        } else {
            Some(self.next_index)
        }
    }

    /// Handles the driver's answer for the current index: an entry is yielded, an unknown index
    /// (`EINVAL`) skipped (`None`: query again), any other error yielded.
    pub fn handle(&mut self, outcome: Result<raw::QueryMenu, i32>) -> (r: Option<
        Result<TextMenuItem, i32>,
    >)
        requires
            menu_query(old(self)@) is Some,
        ensures
            final(self)@ == menu_advanced(old(self)@),
            match outcome {
                Ok(q) => r matches Some(Ok(item)) && item.raw == q,
                Err(e) => r == (if e == EINVAL {
                    None
                } else {
                    Some(Err::<TextMenuItem, i32>(e))
                }),
            },
    {
        if self.next_index < u32::MAX {
            self.next_index = self.next_index + 1;
        } else {
            self.finished = true;
        }
        match outcome {
            Ok(q) => Some(Ok(TextMenuItem { raw: q })),
            Err(e) => {
                if e == EINVAL {
                    None
                } else {
                    Some(Err(e))
                }
            },
        }
    }
}

/// What to do next while collecting frame sizes or intervals.
pub enum Collect<T> {
    /// Ask the driver for the entry with this index.
    Query(u32),
    /// The collection is over, with this outcome.
    Done(Result<T, i32>),
}

/// Collects the frame sizes the driver supports for a pixel format.
///
/// The first entry tells the kind: a stepwise or continuous range is complete in itself; a
/// discrete size is followed by more, up to the index the driver answers `EINVAL` for.
pub struct FrameSizeCollector {
    sizes: Vec<DiscreteFrameSize>,
}

impl View for FrameSizeCollector {
    /// The discrete sizes collected so far.
    type V = Seq<DiscreteFrameSize>;

    closed spec fn view(&self) -> Seq<DiscreteFrameSize> {
        self.sizes@
    }
}

impl FrameSizeCollector {
    /// A collection that starts by querying index 0.
    pub fn new() -> (r: Self)
        ensures
            r@ == Seq::<DiscreteFrameSize>::empty(),
    {
        FrameSizeCollector { sizes: Vec::new() }
    }

    /// The index to query next.
    pub fn next_index(&self) -> (r: u32)
        requires
            self@.len() < u32::MAX,
        ensures
            r == self@.len(),
    {
        self.sizes.len() as u32
    }

    /// Handles the driver's answer for index `self@.len()`.
    ///
    /// A driver that answers with an unknown kind of entry, or with a range after discrete
    /// sizes, gets `EPROTO`.
    pub fn handle(&mut self, outcome: Result<raw::FrmSizeEnum, i32>) -> (r: Collect<FrameSizes>)
        requires
            old(self)@.len() < u32::MAX,
        ensures
            old(self)@.len() == 0 ==> match outcome {
                Err(e) => r matches Collect::Done(Err(x)) && x == e,
                Ok(d) => if d.type_@ == FrmSizeType::DISCRETE {
                    r matches Collect::Query(i) && i == 1 && final(self)@ == seq![
                        DiscreteFrameSize { raw: d.discrete, index: 0 },
                    ]
                } else if d.type_@ == FrmSizeType::CONTINUOUS {
                    r matches Collect::Done(Ok(FrameSizes::Continuous(s))) && s.0 == d.stepwise
                } else if d.type_@ == FrmSizeType::STEPWISE {
                    r matches Collect::Done(Ok(FrameSizes::Stepwise(s))) && s.0 == d.stepwise
                } else {
                    r matches Collect::Done(Err(x)) && x == EPROTO
                },
            },
            old(self)@.len() > 0 ==> match outcome {
                Err(e) => if e == EINVAL {
                    r matches Collect::Done(Ok(FrameSizes::Discrete(v))) && v@ == old(self)@
                } else {
                    r matches Collect::Done(Err(x)) && x == e
                },
                Ok(d) => if d.type_@ == FrmSizeType::DISCRETE {
                    {
                    let grown = old(self)@.push(DiscreteFrameSize { raw: d.discrete, index: old(self)@.len() as u32 });
                    if old(self)@.len() + 1 < u32::MAX {
                        r matches Collect::Query(i) && i == old(self)@.len() + 1 && final(self)@ == grown
                    } else {
                        r matches Collect::Done(Ok(FrameSizes::Discrete(v))) && v@ == grown
                    }
                }
                } else {
                    r matches Collect::Done(Err(x)) && x == EPROTO
                },
            },
    {
        let first: bool = self.sizes.len() == 0;
        match outcome {
            Err(e) => {
                if !first && e == EINVAL {
                    let mut sizes: Vec<DiscreteFrameSize> = Vec::new();
                    core::mem::swap(&mut sizes, &mut self.sizes);
                    Collect::Done(Ok(FrameSizes::Discrete(sizes)))
                } else {
                    Collect::Done(Err(e))
                }
            },
            Ok(d) => {
                if d.type_.raw() == FrmSizeType::DISCRETE {
                    let index: u32 = self.sizes.len() as u32;
                    self.sizes.push(DiscreteFrameSize { raw: d.discrete, index });
                    if index + 1 < u32::MAX {
                        Collect::Query(index + 1)
                    } else {
                        let mut sizes: Vec<DiscreteFrameSize> = Vec::new();
                        core::mem::swap(&mut sizes, &mut self.sizes);
                        Collect::Done(Ok(FrameSizes::Discrete(sizes)))
                    }
                } else if !first {
                    Collect::Done(Err(EPROTO))
                } else if d.type_.raw() == FrmSizeType::CONTINUOUS {
                    Collect::Done(Ok(FrameSizes::Continuous(StepwiseFrameSizes(d.stepwise))))
                } else if d.type_.raw() == FrmSizeType::STEPWISE {
                    Collect::Done(Ok(FrameSizes::Stepwise(StepwiseFrameSizes(d.stepwise))))
                } else {
                    Collect::Done(Err(EPROTO))
                }
            },
        }
    }
}

/// The range reported for a driver that answers with an unknown kind of frame interval:
/// continuous, from 1/600 s to 1 s.
pub open spec fn fallback_intervals(s: raw::FrmIvalStepwise) -> bool {
    s.min@ == (1u32, 600u32) && s.max@ == (1u32, 1u32) && s.step@ == (1u32, 1u32)
}

/// Collects the frame intervals the driver supports for a pixel format and frame size.
///
/// Works like [`FrameSizeCollector`]; a driver that answers with an unknown kind of first entry
/// (which happens with loopback devices that nothing writes to) gets a continuous range from
/// 1/600 s to 1 s.
pub struct FrameIntervalCollector {
    intervals: Vec<DiscreteFrameInterval>,
}

impl View for FrameIntervalCollector {
    /// The discrete intervals collected so far.
    type V = Seq<DiscreteFrameInterval>;

    closed spec fn view(&self) -> Seq<DiscreteFrameInterval> {
        self.intervals@
    }
}

impl FrameIntervalCollector {
    /// A collection that starts by querying index 0.
    pub fn new() -> (r: Self)
        ensures
            r@ == Seq::<DiscreteFrameInterval>::empty(),
    {
        FrameIntervalCollector { intervals: Vec::new() }
    }

    /// The index to query next.
    pub fn next_index(&self) -> (r: u32)
        requires
            self@.len() < u32::MAX,
        ensures
            r == self@.len(),
    {
        self.intervals.len() as u32
    }

    /// Handles the driver's answer for index `self@.len()`.
    pub fn handle(&mut self, outcome: Result<raw::FrmIvalEnum, i32>) -> (r: Collect<
        FrameIntervals,
    >)
        requires
            old(self)@.len() < u32::MAX,
        ensures
            old(self)@.len() == 0 ==> match outcome {
                Err(e) => r matches Collect::Done(Err(x)) && x == e,
                Ok(d) => if d.type_@ == FrmIvalType::DISCRETE {
                    r matches Collect::Query(i) && i == 1 && final(self)@ == seq![
                        DiscreteFrameInterval { index: 0, raw: d.discrete },
                    ]
                } else if d.type_@ == FrmIvalType::CONTINUOUS {
                    r matches Collect::Done(Ok(FrameIntervals::Continuous(s))) && s.0 == d.stepwise
                } else if d.type_@ == FrmIvalType::STEPWISE {
                    r matches Collect::Done(Ok(FrameIntervals::Stepwise(s))) && s.0 == d.stepwise
                } else {
                    r matches Collect::Done(Ok(FrameIntervals::Continuous(s))) && fallback_intervals(
                        s.0,
                    )
                },
            },
            old(self)@.len() > 0 ==> match outcome {
                Err(e) => if e == EINVAL {
                    r matches Collect::Done(Ok(FrameIntervals::Discrete(v))) && v@ == old(self)@
                } else {
                    r matches Collect::Done(Err(x)) && x == e
                },
                Ok(d) => if d.type_@ == FrmIvalType::DISCRETE {
                    {
                    let grown = old(self)@.push(DiscreteFrameInterval { index: old(self)@.len() as u32, raw: d.discrete });
                    if old(self)@.len() + 1 < u32::MAX {
                        r matches Collect::Query(i) && i == old(self)@.len() + 1 && final(self)@ == grown
                    } else {
                        r matches Collect::Done(Ok(FrameIntervals::Discrete(v))) && v@ == grown
                    }
                }
                } else {
                    r matches Collect::Done(Err(x)) && x == EPROTO
                },
            },
    {
        let first: bool = self.intervals.len() == 0;
        match outcome {
            Err(e) => {
                if !first && e == EINVAL {
                    let mut intervals: Vec<DiscreteFrameInterval> = Vec::new();
                    core::mem::swap(&mut intervals, &mut self.intervals);
                    Collect::Done(Ok(FrameIntervals::Discrete(intervals)))
                } else {
                    Collect::Done(Err(e))
                }
            },
            Ok(d) => {
                if d.type_.raw() == FrmIvalType::DISCRETE {
                    let index: u32 = self.intervals.len() as u32;
                    self.intervals.push(DiscreteFrameInterval { index, raw: d.discrete });
                    if index + 1 < u32::MAX {
                        Collect::Query(index + 1)
                    } else {
                        let mut intervals: Vec<DiscreteFrameInterval> = Vec::new();
                        core::mem::swap(&mut intervals, &mut self.intervals);
                        Collect::Done(Ok(FrameIntervals::Discrete(intervals)))
                    }
                } else if !first {
                    Collect::Done(Err(EPROTO))
                } else if d.type_.raw() == FrmIvalType::CONTINUOUS {
                    Collect::Done(
                        Ok(FrameIntervals::Continuous(StepwiseFrameIntervals(d.stepwise))),
                    )
                } else if d.type_.raw() == FrmIvalType::STEPWISE {
                    Collect::Done(Ok(FrameIntervals::Stepwise(StepwiseFrameIntervals(d.stepwise))))
                } else {
                    let fallback = raw::FrmIvalStepwise {
                        min: Fract::new(1, 600),
                        max: Fract::new(1, 1),
                        step: Fract::new(1, 1),
                    };
                    Collect::Done(Ok(FrameIntervals::Continuous(StepwiseFrameIntervals(fallback))))
                }
            },
        }
    }
}

} // verus!
