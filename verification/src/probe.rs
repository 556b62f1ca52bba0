//! The probe: which request is made next, and when the probe is over.
//!
//! A probe walks through its stages once. At every stage but the last two one
//! request is pending; the caller performs it and reports whether it
//! succeeded, and the probe moves on. No stage is entered twice.

use vstd::prelude::*;
use crate::records::{AccentPolicy, BlurBehind, CompositionAttributeData};

verus! {

/// File name of the base windowing library.
pub const WINDOWING_LIBRARY: &'static str = "user32.dll";

/// Name under which the windowing library exports the composition-attribute setter.
pub const SETTER_SYMBOL: &'static str = "SetWindowCompositionAttribute";

/// One call into the operating system that the probe asks its caller to make.
#[derive(Clone, Copy, Debug, PartialEq, Eq)]
pub enum Request {
    /// Load the base windowing library, [`WINDOWING_LIBRARY`].
    LoadLibrary,
    /// Look up the composition-attribute setter, [`SETTER_SYMBOL`], in the loaded library.
    ResolveSetter,
    /// Call the resolved setter on the window with this descriptor.
    SetCompositionAttribute(CompositionAttributeData),
    /// Call the compositor's blur-behind function on the window with this descriptor.
    EnableBlurBehind(BlurBehind),
}

impl Request {
    /// The first composition-attribute request: acrylic with the fixed tint.
    pub open spec fn acrylic() -> Request {
        Request::SetCompositionAttribute(CompositionAttributeData::for_policy(AccentPolicy::acrylic()))
    }

    /// The retry: the descriptor of the first request, its policy switched to
    /// plain blur-behind.
    pub open spec fn plain_blur() -> Request {
        Request::SetCompositionAttribute(
            CompositionAttributeData::for_policy(AccentPolicy::acrylic().spec_plain_blur()),
        )
    }

    /// The compositor request: blur-behind for the whole window.
    pub open spec fn compositor() -> Request {
        Request::EnableBlurBehind(BlurBehind::whole_window())
    }

    /// Whether this is one of the five requests that a probe can make.
    pub open spec fn made_by_probes(self) -> bool {
        ||| self == Request::LoadLibrary
        ||| self == Request::ResolveSetter
        ||| self == Request::acrylic()
        ||| self == Request::plain_blur()
        ||| self == Request::compositor()
    }
}

/// Where a probe stands.
#[derive(Clone, Copy, Debug, PartialEq, Eq)]
pub enum Stage {
    /// The windowing library is to be loaded.
    Library,
    /// The setter is to be looked up.
    Setter,
    /// The acrylic policy is to be submitted.
    Acrylic,
    /// The plain-blur policy is to be submitted.
    PlainBlur,
    /// The compositor is to be asked.
    Compositor,
    /// Over: the effect is applied.
    Done,
    /// Over: nothing was applied.
    Failed,
}

impl Stage {
    /// The request that is pending at this stage; none once the probe is over.
    pub open spec fn spec_pending(&self) -> Option<Request> {
        match *self {
            Stage::Library => Some(Request::LoadLibrary),
            Stage::Setter => Some(Request::ResolveSetter),
            Stage::Acrylic => Some(Request::acrylic()),
            Stage::PlainBlur => Some(Request::plain_blur()),
            Stage::Compositor => Some(Request::compositor()),
            Stage::Done | Stage::Failed => None,
        }
    }

    /// The stage that follows once the pending request has succeeded or failed.
    ///
    /// A success of either composition-attribute request, or of the
    /// compositor, ends the probe with the effect applied. A failure on the
    /// way to the setter skips what is left of the composition-attribute
    /// attempt. A probe that is over stays where it is.
    pub open spec fn spec_advance(self, succeeded: bool) -> Stage {
        match self {
            Stage::Library => if succeeded { Stage::Setter } else { Stage::Compositor },
            Stage::Setter => if succeeded { Stage::Acrylic } else { Stage::Compositor },
            Stage::Acrylic => if succeeded { Stage::Done } else { Stage::PlainBlur },
            Stage::PlainBlur => if succeeded { Stage::Done } else { Stage::Compositor },
            Stage::Compositor => if succeeded { Stage::Done } else { Stage::Failed },
            Stage::Done => Stage::Done,
            Stage::Failed => Stage::Failed,
        }
    }

    /// The probe's answer; none while a request is pending.
    pub open spec fn spec_outcome(&self) -> Option<bool> {
        match *self {
            Stage::Done => Some(true),
            Stage::Failed => Some(false),
            _ => None,
        }
    }

    /// An upper bound on the requests that are still to come.
    pub open spec fn remaining(self) -> nat {
        match self {
            Stage::Library => 5,
            Stage::Setter => 4,
            Stage::Acrylic => 3,
            Stage::PlainBlur => 2,
            Stage::Compositor => 1,
            Stage::Done | Stage::Failed => 0,
        }
    }

    /// The stage at which every probe begins.
    pub fn start() -> (stage: Stage)
        ensures
            stage == Stage::Library,
    {
        Stage::Library
    }

    /// Returns the request that the caller has to perform now, or `None` once
    /// the probe is over.
    #[verifier::when_used_as_spec(spec_pending)]
    pub fn pending(&self) -> (request: Option<Request>)
        ensures
            request == self.spec_pending(),
            request is None <==> self.spec_outcome() is Some,
            request matches Some(pending) ==> pending.made_by_probes(),
    {
        match *self {
            Stage::Library => Some(Request::LoadLibrary),
            Stage::Setter => Some(Request::ResolveSetter),
            Stage::Acrylic => {
                let accent = AccentPolicy::acrylic();
                Some(Request::SetCompositionAttribute(CompositionAttributeData::for_policy(accent)))
            },
            Stage::PlainBlur => {
                let mut accent = AccentPolicy::acrylic();
                accent.request_plain_blur();
                Some(Request::SetCompositionAttribute(CompositionAttributeData::for_policy(accent)))
            },
            Stage::Compositor => Some(Request::EnableBlurBehind(BlurBehind::whole_window())),
            Stage::Done | Stage::Failed => None,
        }
    }

    /// Moves on from the pending request, given whether it succeeded. Each
    /// move brings the probe nearer to its end.
    #[verifier::when_used_as_spec(spec_advance)]
    pub fn advance(self, succeeded: bool) -> (next: Stage)
        ensures
            next == self.spec_advance(succeeded),
            self.spec_outcome() is None ==> next.remaining() < self.remaining(),
            self.spec_outcome() is Some ==> next == self,
    {
        match self {
            Stage::Library => if succeeded { Stage::Setter } else { Stage::Compositor },
            Stage::Setter => if succeeded { Stage::Acrylic } else { Stage::Compositor },
            Stage::Acrylic => if succeeded { Stage::Done } else { Stage::PlainBlur },
            Stage::PlainBlur => if succeeded { Stage::Done } else { Stage::Compositor },
            Stage::Compositor => if succeeded { Stage::Done } else { Stage::Failed },
            Stage::Done => Stage::Done,
            Stage::Failed => Stage::Failed,
        }
    }

    /// Returns the probe's answer: `Some(true)` where the effect is applied,
    /// `Some(false)` where every attempt failed, `None` while a request is
    /// pending.
    #[verifier::when_used_as_spec(spec_outcome)]
    pub fn outcome(&self) -> (outcome: Option<bool>)
        ensures
            outcome == self.spec_outcome(),
    {
        match *self {
            Stage::Done => Some(true),
            Stage::Failed => Some(false),
            _ => None,
        }
    }
}

} // verus!
