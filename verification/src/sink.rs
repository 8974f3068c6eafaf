//! The decisions of the GTK 4 paintable video sink: when it has a paintable
//! to hand out, which state changes it refuses, what it keeps of negotiated
//! caps, and how a frame to show makes its way to the main thread.
//!
//! The sink's state is generic in what the toolkit provides: `P` the
//! paintable, `I` the video info of negotiated caps, `S` the sender to the
//! main thread, `F` a mapped frame.
use vstd::prelude::*;

use fragile::{Fragile, InvalidThreadAccess};

use crate::element::str_eq;

verus! {

#[verifier::external_type_specification]
#[verifier::external_body]
#[verifier::reject_recursive_types(T)]
pub struct ExFragile<T>(Fragile<T>);

#[verifier::external_type_specification]
#[verifier::external_body]
pub struct ExInvalidThreadAccess(InvalidThreadAccess);

/// Calls `fragile::Fragile::new`, which wraps a value and anchors it to the
/// calling thread. Nothing can be said of the wrapper itself: its content is
/// recorded beside it by `ThreadBound::new`.
#[verifier::external_body]
fn fragile_new<T>(value: T) -> Fragile<T> {
    Fragile::new(value)
}

/// A value that may only be used on the thread that created it, together
/// with the value it holds.
#[verifier::reject_recursive_types(T)]
pub struct ThreadBound<T> {
    inner: Fragile<T>,
    value: Ghost<T>,
}

impl<T> ThreadBound<T> {
    /// The value held.
    pub closed spec fn value(&self) -> T {
        self.value@
    }

    /// Wraps a value for the calling thread.
    pub fn new(value: T) -> (r: Self)
        ensures
            r.value() == value,
    {
        let ghost v = value;
        ThreadBound { inner: fragile_new(value), value: Ghost(v) }
    }

    /// Calls `fragile::Fragile::try_get` on the wrapped value. It borrows the
    /// value when called on the thread that wrapped it, and fails otherwise:
    /// which of the two happens depends on the calling thread and is not
    /// stated. What is stated is that a borrow is the value that `new` was
    /// given (`Fragile::new` keeps it, `try_get` hands it out).
    #[verifier::external_body]
    fn try_get(&self) -> (r: Result<&T, InvalidThreadAccess>)
        ensures
            r matches Ok(v) ==> *v == self.value(),
    {
        self.inner.try_get()
    }
}

/// What a thread-checked borrow of the paintable gives the property reader:
/// the paintable itself, or `WrongThread` where the check failed.
pub fn paintable_access<P>(res: Result<&P, InvalidThreadAccess>) -> (r: Result<&P, PaintableError>)
    ensures
        res matches Ok(v) ==> r == Ok::<&P, PaintableError>(v),
        res is Err ==> r == Err::<&P, PaintableError>(PaintableError::WrongThread),
{
    match res {
        Ok(v) => Ok(v),
        Err(_) => Err(PaintableError::WrongThread),
    }
}

/// The state changes of an element.
#[derive(Clone, Copy, PartialEq, Eq, Structural, Debug)]
pub enum StateChange {
    NullToReady,
    ReadyToPaused,
    PausedToPlaying,
    PlayingToPaused,
    PausedToReady,
    ReadyToNull,
    NullToNull,
    ReadyToReady,
    PausedToPaused,
    PlayingToPlaying,
}

/// A refused state change.
#[derive(Clone, Copy, PartialEq, Eq, Structural, Debug)]
pub struct StateChangeError;

/// Why a buffer was not shown.
#[derive(Clone, Copy, PartialEq, Eq, Structural, Debug)]
pub enum FlowError {
    NotLinked,
    Flushing,
    Eos,
    NotNegotiated,
    Error,
    NotSupported,
    CustomError,
    CustomError1,
    CustomError2,
}

/// A buffer that was shown.
#[derive(Clone, Copy, PartialEq, Eq, Structural, Debug)]
pub struct FlowSuccess;

/// Caps that do not describe raw video.
#[derive(Clone, Copy, PartialEq, Eq, Structural, Debug)]
pub struct InvalidCaps;

/// Why the sink has no paintable to hand out.
#[derive(Clone, Copy, PartialEq, Eq, Structural, Debug)]
pub enum PaintableError {
    /// No paintable could be created.
    NoPaintable,
    /// The paintable may only be read on the main thread.
    WrongThread,
}

/// The properties of the sink.
#[derive(Clone, Copy, PartialEq, Eq, Structural, Debug)]
pub enum SinkProperty {
    /// The paintable that the sink renders to (read-only).
    Paintable,
}

impl SinkProperty {
    /// The property of the given name, if the sink has one.
    pub fn from_name(name: &str) -> (r: Option<SinkProperty>)
        ensures
            r == (if name@ == "paintable"@ { Some(SinkProperty::Paintable) } else { None::<SinkProperty> }),
    {
        if str_eq(name, "paintable") {
            Some(SinkProperty::Paintable)
        } else {
            None
        }
    }
}

/// The outcome of showing a frame once the main thread was told.
pub open spec fn spec_frame_sent(sent_ok: bool) -> Result<FlowSuccess, FlowError> {
    if sent_ok {
        Ok(FlowSuccess)
    } else {
        Err(FlowError::Error)
    }
}

/// The state of a paintable sink.
#[verifier::reject_recursive_types(P)]
pub struct PaintableSink<P, I, S, F> {
    pub paintable: Option<ThreadBound<P>>,
    pub info: Option<I>,
    pub sender: Option<S>,
    pub pending_frame: Option<F>,
}

impl<P, I, S, F> PaintableSink<P, I, S, F> {
    /// A sink with no paintable, no caps, no sender and no frame.
    pub fn new() -> (r: Self)
        ensures
            r.paintable is None,
            r.info is None,
            r.sender is None,
            r.pending_frame is None,
    {
        PaintableSink { paintable: None, info: None, sender: None, pending_frame: None }
    }

    /// Whether a paintable has to be created before one can be handed out.
    pub fn needs_paintable(&self) -> (r: bool)
        ensures
            r == self.paintable is None,
    {
        self.paintable.is_none()
    }

    /// Keeps the paintable that was created for this sink; there is none
    /// yet (one made on another thread may not be dropped here).
    pub fn set_paintable(&mut self, paintable: ThreadBound<P>)
        requires
            old(self).paintable is None,
        ensures
            final(self).paintable == Some(paintable),
            final(self).info == old(self).info,
            final(self).sender == old(self).sender,
            final(self).pending_frame == old(self).pending_frame,
    {
        self.paintable = Some(paintable);
    }

    /// Keeps the sender that reaches the main thread.
    pub fn set_sender(&mut self, sender: Option<S>)
        ensures
            final(self).sender == sender,
            final(self).paintable == old(self).paintable,
            final(self).info == old(self).info,
            final(self).pending_frame == old(self).pending_frame,
    {
        self.sender = sender;
    }

    /// Reads a property: the stored paintable, where there is one and this
    /// is the thread that may read it (`paintable_access` of the thread check).
    pub fn property(&self, prop: SinkProperty) -> (r: Result<&P, PaintableError>)
        ensures
            self.paintable is None <==> r == Err::<&P, PaintableError>(PaintableError::NoPaintable),
            self.paintable matches Some(p) ==> match r {
                Ok(v) => *v == p.value(),
                Err(e) => e == PaintableError::WrongThread,
            },
    {
        match prop {
            SinkProperty::Paintable => {
                match &self.paintable {
                    None => Err(PaintableError::NoPaintable),
                    Some(p) => paintable_access(p.try_get()),
                }
            },
        }
    }

    /// Whether a paintable has to be created before this state change.
    pub fn change_state_needs_paintable(&self, transition: StateChange) -> (r: bool)
        ensures
            r == (transition == StateChange::NullToReady && self.paintable is None),
    {
        match transition {
            StateChange::NullToReady => self.paintable.is_none(),
            _ => false,
        }
    }

    /// Whether the sink lets a state change go ahead: going to ready
    /// needs a paintable.
    pub fn change_state_prepare(&self, transition: StateChange) -> (r: Result<(), StateChangeError>)
        ensures
            r is Err <==> (transition == StateChange::NullToReady && self.paintable is None),
    {
        match transition {
            StateChange::NullToReady => {
                if self.paintable.is_none() {
                    Err(StateChangeError)
                } else {
                    Ok(())
                }
            },
            _ => Ok(()),
        }
    }

    /// After a state change: going from paused to ready forgets the
    /// negotiated caps and the pending frame. The parent's result is handed
    /// back as it is.
    pub fn change_state_complete<R>(&mut self, transition: StateChange, res: R) -> (r: R)
        ensures
            r == res,
            final(self).paintable == old(self).paintable,
            final(self).sender == old(self).sender,
            transition == StateChange::PausedToReady ==> final(self).info is None
                && final(self).pending_frame is None,
            transition != StateChange::PausedToReady ==> final(self).info == old(self).info
                && final(self).pending_frame == old(self).pending_frame,
    {
        match transition {
            StateChange::PausedToReady => {
                self.info = None;
                self.pending_frame = None;
            },
            _ => {},
        }
        res
    }

    /// Keeps the video info of newly negotiated caps; caps that describe no
    /// video are refused and change nothing.
    pub fn set_caps<E>(&mut self, info: Result<I, E>) -> (r: Result<(), InvalidCaps>)
        ensures
            final(self).paintable == old(self).paintable,
            final(self).sender == old(self).sender,
            final(self).pending_frame == old(self).pending_frame,
            match info {
                Ok(i) => r is Ok && final(self).info == Some(i),
                Err(_) => r == Err::<(), InvalidCaps>(InvalidCaps) && final(self).info == old(self).info,
            },
    {
        match info {
            Ok(i) => {
                self.info = Some(i);
                Ok(())
            },
            Err(_) => Err(InvalidCaps),
        }
    }

    /// The video info that a frame to show is mapped with; without
    /// negotiated caps there is none.
    pub fn negotiated_info(&self) -> (r: Result<&I, FlowError>)
        ensures
            match self.info {
                Some(i) => r == Ok::<&I, FlowError>(&i),
                None => r == Err::<&I, FlowError>(FlowError::NotNegotiated),
            },
    {
        match &self.info {
            Some(i) => Ok(i),
            None => Err(FlowError::NotNegotiated),
        }
    }

    /// The state and result after taking a frame to show: a mapped frame
    /// replaces the pending one, and fails to reach the main thread where
    /// there is no sender; a frame that could not be mapped changes nothing.
    pub open spec fn spec_queue_frame(self, frame: Result<F, FlowError>) -> (Self, Result<(), FlowError>) {
        match frame {
            Err(e) => (self, Err(e)),
            Ok(f) => (
                PaintableSink {
                    paintable: self.paintable,
                    info: self.info,
                    sender: self.sender,
                    pending_frame: Some(f),
                },
                if self.sender is Some {
                    Ok(())
                } else {
                    Err(FlowError::Error)
                },
            ),
        }
    }

    /// Showing a buffer, step by step: without negotiated caps nothing
    /// happens; otherwise the mapped frame (or the error of mapping it) is
    /// queued, and where it could be, the main thread is told (`sent_ok`
    /// says whether that went through).
    pub open spec fn spec_show_frame(self, frame: Result<F, FlowError>, sent_ok: bool) -> (Self, Result<FlowSuccess, FlowError>) {
        match self.info {
            None => (self, Err(FlowError::NotNegotiated)),
            Some(_) => {
                let (next, queued) = self.spec_queue_frame(frame);
                match queued {
                    Err(e) => (next, Err(e)),
                    Ok(_) => (next, spec_frame_sent(sent_ok)),
                }
            },
        }
    }

    /// Takes a mapped frame as the one to show next, replacing any earlier
    /// one, and tells whether the main thread can be told; a frame that
    /// could not be mapped changes nothing and its error is handed back.
    pub fn queue_frame(&mut self, frame: Result<F, FlowError>) -> (r: Result<(), FlowError>)
        ensures
            (*final(self), r) == old(self).spec_queue_frame(frame),
    {
        match frame {
            Err(e) => Err(e),
            Ok(f) => {
                self.pending_frame = Some(f);
                if self.sender.is_some() {
                    Ok(())
                } else {
                    Err(FlowError::Error)
                }
            },
        }
    }

    /// The outcome of showing a frame once the main thread was told: a
    /// receiver that has gone away is an error.
    pub fn frame_sent<E>(sent: Result<(), E>) -> (r: Result<FlowSuccess, FlowError>)
        ensures
            r == spec_frame_sent(sent is Ok),
    {
        match sent {
            Ok(()) => Ok(FlowSuccess),
            Err(_) => Err(FlowError::Error),
        }
    }

    /// Hands out the paintable when the sink goes away, so that it can be
    /// dropped on the main thread.
    pub fn take_paintable(&mut self) -> (r: Option<ThreadBound<P>>)
        ensures
            r == old(self).paintable,
            final(self).paintable is None,
            final(self).info == old(self).info,
            final(self).sender == old(self).sender,
            final(self).pending_frame == old(self).pending_frame,
    {
        self.paintable.take()
    }
}

/// Law: showing a buffer succeeds exactly when caps were negotiated, the
/// frame could be mapped, there is a sender to the main thread and telling
/// it went through. Only the pending frame ever changes, and only to a
/// frame that was mapped; the paintable, caps and sender stay as they were.
pub proof fn lemma_show_frame<P, I, S, F>(sink: PaintableSink<P, I, S, F>, frame: Result<F, FlowError>, sent_ok: bool)
    ensures
        ({
            let (next, r) = sink.spec_show_frame(frame, sent_ok);
            &&& r is Ok <==> (sink.info is Some && frame is Ok && sink.sender is Some && sent_ok)
            &&& sink.info is None ==> r == Err::<FlowSuccess, FlowError>(FlowError::NotNegotiated)
            &&& (sink.info is Some && frame is Err) ==> r == Err::<FlowSuccess, FlowError>(frame->Err_0)
            &&& (sink.info is Some && frame is Ok && !(sink.sender is Some && sent_ok))
                ==> r == Err::<FlowSuccess, FlowError>(FlowError::Error)
            &&& next.paintable == sink.paintable
            &&& next.info == sink.info
            &&& next.sender == sink.sender
            &&& next.pending_frame == (if sink.info is Some && frame is Ok {
                Some(frame->Ok_0)
            } else {
                sink.pending_frame
            })
        }),
{
}

} // verus!
