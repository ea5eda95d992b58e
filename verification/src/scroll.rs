//! Hold-to-scroll: pressing the middle button over a list starts a hold that
//! drives that list until the button is released, focus is lost, Escape is
//! pressed, or a frame passes in which the list was not shown.
//!
//! Positions (`P`) and applied offsets (`A`) are carried, not read.
use vstd::prelude::*;

verus! {

/// Whether a hold is driving a list.
#[derive(Clone, Copy, PartialEq, Eq, Debug)]
pub enum Drive<P> {
    Idle,
    /// A hold that started at `origin` over the list `target`.
    Holding { origin: P, target: u64 },
}

/// The hold-to-scroll state shared by the main lists.
pub struct ScrollSession<P, A> {
    pub drive: Drive<P>,
    /// The last frame in which a list was bound.
    pub frame: Option<u64>,
    /// Whether the hold was claimed by its list in the current frame.
    pub armed: bool,
    /// The offset last applied to a list, with that list.
    pub applied: Option<(u64, A)>,
}

impl<P: Copy, A: Copy> ScrollSession<P, A> {
    /// An idle session.
    pub fn new() -> (r: Self)
        ensures
            r.drive == Drive::<P>::Idle,
            r.frame is None,
            !r.armed,
            r.applied is None,
    {
        ScrollSession { drive: Drive::Idle, frame: None, armed: false, applied: None }
    }

    /// Whether a hold is in progress.
    pub fn holding(&self) -> (r: bool)
        ensures
            r == (self.drive is Holding),
    {
        match self.drive {
            Drive::Holding { .. } => true,
            Drive::Idle => false,
        }
    }

    /// Ends a hold when `stop` (focus lost, middle button up, or Escape).
    pub fn stop_if_needed(&mut self, stop: bool)
        ensures
            old(self).drive is Holding && stop ==> final(self).drive == Drive::<P>::Idle
                && final(self).applied is None,
            !(old(self).drive is Holding && stop) ==> final(self).drive == old(self).drive
                && final(self).applied == old(self).applied,
            final(self).frame == old(self).frame,
            final(self).armed == old(self).armed,
    {
        if !self.holding() {
            return;
        }
        if stop {
            self.drive = Drive::Idle;
            self.applied = None;
        }
    }

    /// Starts a hold over `target` when idle and the middle button was pressed
    /// at `press` inside the list.
    pub fn try_start(&mut self, target: u64, press: Option<P>)
        ensures
            old(self).drive is Idle && press is Some ==> final(self).drive == (Drive::Holding {
                origin: press->0,
                target,
            }) && final(self).armed,
            !(old(self).drive is Idle && press is Some) ==> final(self).drive == old(self).drive
                && final(self).armed == old(self).armed,
            final(self).frame == old(self).frame,
            final(self).applied == old(self).applied,
    {
        if self.holding() {
            return;
        }
        if let Some(pos) = press {
            self.drive = Drive::Holding { origin: pos, target };
            self.armed = true;
        }
    }

    /// Binds the list `target` in `frame`. The first bind of a frame disarms the
    /// hold and ends it when `stop`; a middle press inside the list may start
    /// one. Returns the hold's origin when it drives this list, which claims it
    /// for the frame.
    pub fn bind(&mut self, frame: u64, stop: bool, target: u64, press: Option<P>) -> (r: Option<P>)
        ensures
            final(self).frame == Some(frame),
            final(self).applied == (if old(self).frame != Some(frame) && old(self).drive is Holding
                && stop {
                None
            } else {
                old(self).applied
            }),
            ({
                let fresh = old(self).frame != Some(frame);
                let kept = if fresh && stop {
                    Drive::<P>::Idle
                } else {
                    old(self).drive
                };
                let started = kept is Idle && press is Some;
                let drive = if started {
                    Drive::Holding { origin: press->0, target }
                } else {
                    kept
                };
                let armed = if fresh {
                    false
                } else {
                    old(self).armed
                };
                &&& final(self).drive == drive
                &&& r == (match drive {
                    Drive::Holding { origin, target: held } => if held == target {
                        Some(origin)
                    } else {
                        None
                    },
                    Drive::Idle => None,
                })
                &&& final(self).armed == (r is Some || started || armed)
            }),
    {
        if self.frame != Some(frame) {
            self.frame = Some(frame);
            self.armed = false;
            self.stop_if_needed(stop);
        }
        self.try_start(target, press);
        match self.drive {
            Drive::Holding { origin, target: held } => {
                if held == target {
                    self.armed = true;
                    Some(origin)
                } else {
                    None
                }
            },
            Drive::Idle => None,
        }
    }

    /// The offset last applied to `target`, if the last one applied was to it.
    pub fn applied_to(&self, target: u64) -> (r: Option<A>)
        ensures
            r == (match self.applied {
                Some(p) => if p.0 == target {
                    Some(p.1)
                } else {
                    None
                },
                None => None,
            }),
    {
        match self.applied {
            Some((id, offset)) => if id == target {
                Some(offset)
            } else {
                None
            },
            None => None,
        }
    }

    /// Records that `offset` was applied to `target`.
    pub fn set_applied(&mut self, target: u64, offset: A)
        ensures
            final(self).applied == Some((target, offset)),
            final(self).drive == old(self).drive,
            final(self).frame == old(self).frame,
            final(self).armed == old(self).armed,
    {
        self.applied = Some((target, offset));
    }

    /// Forgets the offset last applied.
    pub fn clear_applied(&mut self)
        ensures
            final(self).applied is None,
            final(self).drive == old(self).drive,
            final(self).frame == old(self).frame,
            final(self).armed == old(self).armed,
    {
        self.applied = None;
    }

    /// At the end of a frame: a hold that no list claimed in `frame` ends.
    pub fn reap(&mut self, frame: u64)
        ensures
            old(self).frame != Some(frame) || !old(self).armed ==> final(self).drive == Drive::<P>::Idle
                && final(self).applied is None,
            old(self).frame == Some(frame) && old(self).armed ==> final(self).drive == old(self).drive
                && final(self).applied == old(self).applied,
            final(self).frame == old(self).frame,
            final(self).armed == old(self).armed,
    {
        if self.frame != Some(frame) || !self.armed {
            self.drive = Drive::Idle;
            self.applied = None;
        }
    }
}

} // verus!
