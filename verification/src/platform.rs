//! What a probe amounts to on a given platform.
//!
//! A platform is taken as a function that says, for every request, whether it
//! succeeds there. The functions below state in closed form which requests a
//! probe makes on a platform and what it answers; [`lemma_run_is_closed_form`]
//! shows that walking through the stages gives exactly that.

use vstd::prelude::*;
use crate::probe::{Request, Stage};

verus! {

/// Whether the composition-attribute setter can be had: the library loads
/// and holds the setter.
pub open spec fn setter_available(platform: spec_fn(Request) -> bool) -> bool {
    platform(Request::LoadLibrary) && platform(Request::ResolveSetter)
}

/// Whether the composition-attribute attempt applies the effect: the setter
/// can be had and accepts the acrylic policy or, failing that, plain blur.
pub open spec fn accent_applied(platform: spec_fn(Request) -> bool) -> bool {
    setter_available(platform) && (platform(Request::acrylic()) || platform(Request::plain_blur()))
}

/// The answer of a probe: the composition-attribute attempt applies the
/// effect or, failing that, the compositor does.
pub open spec fn applied(platform: spec_fn(Request) -> bool) -> bool {
    accent_applied(platform) || platform(Request::compositor())
}

/// The requests that a probe makes, in the order in which it makes them.
pub open spec fn issued(platform: spec_fn(Request) -> bool) -> Seq<Request> {
    if !platform(Request::LoadLibrary) {
        seq![Request::LoadLibrary, Request::compositor()]
    } else if !platform(Request::ResolveSetter) {
        seq![Request::LoadLibrary, Request::ResolveSetter, Request::compositor()]
    } else if platform(Request::acrylic()) {
        seq![Request::LoadLibrary, Request::ResolveSetter, Request::acrylic()]
    } else if platform(Request::plain_blur()) {
        seq![Request::LoadLibrary, Request::ResolveSetter, Request::acrylic(), Request::plain_blur()]
    } else {
        seq![
            Request::LoadLibrary,
            Request::ResolveSetter,
            Request::acrylic(),
            Request::plain_blur(),
            Request::compositor(),
        ]
    }
}

/// How often `request` occurs in `requests`.
pub open spec fn occurrences(requests: Seq<Request>, request: Request) -> nat {
    requests.filter(|made: Request| made == request).len()
}

/// The requests that a probe standing at `stage` still makes on `platform`.
pub open spec fn requests_from(stage: Stage, platform: spec_fn(Request) -> bool) -> Seq<Request>
    decreases stage.remaining(),
{
    match stage.spec_pending() {
        None => Seq::empty(),
        Some(request) => seq![request] + requests_from(
            stage.spec_advance(platform(request)),
            platform,
        ),
    }
}

/// The answer that a probe standing at `stage` arrives at on `platform`.
pub open spec fn answer_from(stage: Stage, platform: spec_fn(Request) -> bool) -> bool
    decreases stage.remaining(),
{
    match stage.spec_pending() {
        None => stage == Stage::Done,
        Some(request) => answer_from(stage.spec_advance(platform(request)), platform),
    }
}

/// Whether a probe on `platform` comes to stand at `stage`.
pub open spec fn reaches(platform: spec_fn(Request) -> bool, stage: Stage) -> bool {
    match stage {
        Stage::Library => true,
        Stage::Setter => platform(Request::LoadLibrary),
        Stage::Acrylic => setter_available(platform),
        Stage::PlainBlur => setter_available(platform) && !platform(Request::acrylic()),
        Stage::Compositor => !accent_applied(platform),
        Stage::Done => applied(platform),
        Stage::Failed => !applied(platform),
    }
}

/// The requests that a probe on `platform` has made when it comes to stand
/// at `stage`.
pub open spec fn issued_before(platform: spec_fn(Request) -> bool, stage: Stage) -> Seq<Request> {
    match stage {
        Stage::Library => Seq::empty(),
        Stage::Setter => seq![Request::LoadLibrary],
        Stage::Acrylic => seq![Request::LoadLibrary, Request::ResolveSetter],
        Stage::PlainBlur => seq![Request::LoadLibrary, Request::ResolveSetter, Request::acrylic()],
        Stage::Compositor => issued(platform).drop_last(),
        Stage::Done | Stage::Failed => issued(platform),
    }
}

/// At whatever stage a probe on `platform` stands, what it has made and what
/// it still makes are together the requests of [`issued`], and it arrives at
/// the answer of [`applied`].
pub proof fn lemma_run_from_reached_stage(platform: spec_fn(Request) -> bool, stage: Stage)
    requires
        reaches(platform, stage),
    ensures
        issued_before(platform, stage) + requests_from(stage, platform) == issued(platform),
        answer_from(stage, platform) == applied(platform),
{
    reveal_with_fuel(requests_from, 6);
    reveal_with_fuel(answer_from, 6);
    assert(issued_before(platform, stage) + requests_from(stage, platform) =~= issued(platform));
}

/// Walking through the stages from the start makes the requests of
/// [`issued`] and arrives at the answer of [`applied`].
pub proof fn lemma_run_is_closed_form(platform: spec_fn(Request) -> bool)
    ensures
        requests_from(Stage::Library, platform) == issued(platform),
        answer_from(Stage::Library, platform) == applied(platform),
{
    lemma_run_from_reached_stage(platform, Stage::Library);
    assert(Seq::<Request>::empty() + requests_from(Stage::Library, platform) =~= requests_from(
        Stage::Library,
        platform,
    ));
}

} // verus!
