//! The calls that a window makes into its client, and the guard that keeps
//! them from nesting.

use vstd::prelude::*;
use crate::keyboard::KeyEvent;
use crate::kurbo::Size;
use crate::pointer::PointerEvent;
use crate::region::Region;
use crate::scale::Scale;
use crate::window::{IdleCallback, IdleToken, TextFieldToken, TimerToken};

verus! {

/// One call into the client of a window. The library decides which calls
/// are due and in which order; the embedding program makes them.
#[derive(Clone, Debug, PartialEq, Eq)]
pub enum HandlerCall {
    /// The window exists and can be used.
    Connect,
    /// The scale of the window is this.
    Scale(Scale),
    /// The size of the window, in device-independent pixels, is this.
    Size(Size),
    /// A paint is about to follow.
    PreparePaint,
    /// Paint this region.
    Paint(Region),
    PointerDown(PointerEvent),
    PointerUp(PointerEvent),
    PointerMove(PointerEvent),
    PointerLeave,
    Wheel(PointerEvent),
    KeyDown(KeyEvent),
    KeyUp(KeyEvent),
    GotFocus,
    LostFocus,
    /// The user asked to close the window.
    RequestClose,
    /// The window is gone.
    Destroy,
    /// A timer fired.
    Timer(TimerToken),
    /// Deferred work named by a token is due.
    Idle(IdleToken),
    /// A deferred callback is due.
    IdleCallback(IdleCallback),
    /// Lock a text field for editing.
    AcquireInputLock(TextFieldToken),
    /// Unlock a text field.
    ReleaseInputLock(TextFieldToken),
    /// Forget the composition range of the locked text field.
    ClearCompositionRange(TextFieldToken),
    /// Replace the composition range of the locked text field with the text
    /// of the composition that was cancelled, or forget the range if the
    /// field has none.
    CommitComposition(TextFieldToken),
    /// Feed a key press to the locked text field.
    ComposeKey(TextFieldToken, KeyEvent),
}

/// Lets one activation of the client run at a time. An attempt to enter
/// while another activation runs is turned away at once: it neither waits
/// nor is it kept for later.
#[derive(Clone, Copy, Debug, PartialEq, Eq, Structural)]
pub struct HandlerGateway {
    active: bool,
}

impl HandlerGateway {
    /// Whether an activation runs.
    pub closed spec fn spec_is_active(self) -> bool {
        self.active
    }

    /// The gateway after an attempt to enter, and whether the attempt
    /// succeeded.
    pub open spec fn spec_try_enter(self) -> (HandlerGateway, bool) {
        if self.spec_is_active() {
            (self, false)
        } else {
            (self.spec_activated(), true)
        }
    }

    /// The gateway with an activation running.
    pub closed spec fn spec_activated(self) -> HandlerGateway {
        HandlerGateway { active: true }
    }

    /// The gateway with no activation running.
    pub closed spec fn spec_released(self) -> HandlerGateway {
        HandlerGateway { active: false }
    }

    /// A gateway with no activation running.
    pub fn new() -> (g: HandlerGateway)
        ensures
            !g.spec_is_active(),
    {
        HandlerGateway { active: false }
    }

    /// Whether an activation runs.
    pub fn is_active(&self) -> (b: bool)
        ensures
            b == self.spec_is_active(),
    {
        self.active
    }

    /// Starts an activation unless one runs. Returns whether it did.
    pub fn try_enter(&mut self) -> (entered: bool)
        ensures
            (*final(self), entered) == old(self).spec_try_enter(),
            entered == !old(self).spec_is_active(),
            final(self).spec_is_active(),
    {
        if self.active {
            false
        } else {
            self.active = true;
            true
        }
    }

    /// Ends the activation that runs, if one does.
    pub fn leave(&mut self)
        ensures
            *final(self) == old(self).spec_released(),
            !final(self).spec_is_active(),
    {
        self.active = false;
    }

    /// Passes `calls` on to the client if no activation runs, and starts one
    /// for them; turns them away otherwise.
    pub fn deliver(&mut self, calls: Vec<HandlerCall>) -> (out: Delivery)
        ensures
            out@ == spec_deliver(old(self).spec_is_active(), calls@),
            *final(self) == old(self).spec_try_enter().0,
            final(self).spec_is_active(),
    {
        if self.try_enter() {
            Delivery::Calls(calls)
        } else {
            Delivery::Busy
        }
    }
}

/// What became of the calls that a step of the loop had for a client.
#[derive(Clone, Debug, PartialEq, Eq)]
pub enum Delivery {
    /// The step had no reason to call the client.
    Nothing,
    /// The client is to be called with these, in order. An activation has
    /// started for them; it ends when the embedding program says that the
    /// calls are done.
    Calls(Vec<HandlerCall>),
    /// An activation was running already: the calls were dropped.
    Busy,
}

/// A `Delivery` with the calls as a sequence.
pub enum DeliveryView {
    Nothing,
    Calls(Seq<HandlerCall>),
    Busy,
}

impl View for Delivery {
    type V = DeliveryView;

    open spec fn view(&self) -> DeliveryView {
        match self {
            Delivery::Nothing => DeliveryView::Nothing,
            Delivery::Calls(calls) => DeliveryView::Calls(calls@),
            Delivery::Busy => DeliveryView::Busy,
        }
    }
}

/// What becomes of `calls` at a gateway: they are dropped if an activation
/// runs, and passed on otherwise.
pub open spec fn spec_deliver(active: bool, calls: Seq<HandlerCall>) -> DeliveryView {
    if active {
        DeliveryView::Busy
    } else {
        DeliveryView::Calls(calls)
    }
}

/// Once an activation has started, every further attempt to enter is turned
/// away and leaves the gateway as it is, however often it is made.
pub proof fn lemma_reentry_rejected(g: HandlerGateway, attempts: nat)
    requires
        g.spec_is_active(),
    ensures
        attempts_from(g, attempts) == (g, false),
    decreases attempts,
{
    if attempts > 0 {
        lemma_reentry_rejected(g, (attempts - 1) as nat);
    }
}

/// The gateway after `attempts` attempts to enter in a row, and whether any
/// of them succeeded.
pub open spec fn attempts_from(g: HandlerGateway, attempts: nat) -> (HandlerGateway, bool)
    decreases attempts,
{
    if attempts == 0 {
        (g, false)
    } else {
        let (before, any) = attempts_from(g, (attempts - 1) as nat);
        let (after, entered) = before.spec_try_enter();
        (after, any || entered)
    }
}

/// Of any number of attempts to enter in a row, exactly the first succeeds
/// if the gateway was free, and none if it was not; after the activation
/// ends the gateway is free again.
pub proof fn lemma_single_activation(g: HandlerGateway, attempts: nat)
    requires
        attempts > 0,
    ensures
        attempts_from(g, attempts).1 == !g.spec_is_active(),
        attempts_from(g, attempts).0.spec_is_active(),
        attempts_from(g, attempts).0.spec_released().spec_try_enter().1,
    decreases attempts,
{
    if attempts > 1 {
        lemma_single_activation(g, (attempts - 1) as nat);
    } else {
        assert(attempts_from(g, 0) == (g, false));
    }
}

} // verus!
