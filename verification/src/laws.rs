//! What holds of every probe, on every platform.

use vstd::prelude::*;
use crate::platform::{accent_applied, applied, issued, occurrences, setter_available};
use crate::probe::Request;
use crate::records::{
    AccentPolicy, CompositionAttributeData, ACCENT_ENABLE_BLURBEHIND, ACCENT_POLICY_SIZE,
    WCA_ACCENT_POLICY,
};

verus! {

/// Where the windowing library or the setter in it is missing and the
/// compositor refuses as well, the probe answers that nothing was applied.
pub proof fn lemma_unsupported_platform_is_not_blurred(platform: spec_fn(Request) -> bool)
    requires
        !platform(Request::LoadLibrary) || !platform(Request::ResolveSetter),
        !platform(Request::compositor()),
    ensures
        !applied(platform),
{
}

/// Where the windowing library or the setter in it is missing, no
/// composition-attribute request is made, the compositor is asked exactly
/// once, and its answer is the probe's.
pub proof fn lemma_missing_setter_leaves_it_to_compositor(platform: spec_fn(Request) -> bool)
    requires
        !setter_available(platform),
    ensures
        applied(platform) == platform(Request::compositor()),
        occurrences(issued(platform), Request::compositor()) == 1,
        forall|i: int|
            0 <= i < issued(platform).len() ==> !(#[trigger] issued(platform)[i]
                is SetCompositionAttribute),
{
    lemma_occurrences_of_issued(platform);
}

/// Where the setter accepts the acrylic policy, the effect is applied and
/// the probe is over: neither the plain-blur retry nor the compositor
/// request is made.
pub proof fn lemma_acrylic_success_ends_probe(platform: spec_fn(Request) -> bool)
    requires
        setter_available(platform),
        platform(Request::acrylic()),
    ensures
        applied(platform),
        issued(platform) == seq![Request::LoadLibrary, Request::ResolveSetter, Request::acrylic()],
        occurrences(issued(platform), Request::plain_blur()) == 0,
        occurrences(issued(platform), Request::compositor()) == 0,
{
    lemma_occurrences_of_issued(platform);
}

/// Where the setter refuses the acrylic policy and accepts plain blur, the
/// effect is applied and the compositor request is not made.
pub proof fn lemma_plain_blur_success_ends_probe(platform: spec_fn(Request) -> bool)
    requires
        setter_available(platform),
        !platform(Request::acrylic()),
        platform(Request::plain_blur()),
    ensures
        applied(platform),
        issued(platform) == seq![
            Request::LoadLibrary,
            Request::ResolveSetter,
            Request::acrylic(),
            Request::plain_blur(),
        ],
        occurrences(issued(platform), Request::compositor()) == 0,
{
    lemma_occurrences_of_issued(platform);
}

/// Where the setter refuses both policies, the compositor is asked exactly
/// once, after them, and its answer is the probe's.
pub proof fn lemma_compositor_decides_after_refusals(platform: spec_fn(Request) -> bool)
    requires
        setter_available(platform),
        !platform(Request::acrylic()),
        !platform(Request::plain_blur()),
    ensures
        applied(platform) == platform(Request::compositor()),
        issued(platform) == seq![
            Request::LoadLibrary,
            Request::ResolveSetter,
            Request::acrylic(),
            Request::plain_blur(),
            Request::compositor(),
        ],
        occurrences(issued(platform), Request::compositor()) == 1,
{
    lemma_occurrences_of_issued(platform);
}

/// The compositor is asked exactly where the composition-attribute attempt
/// has not applied the effect, and then once, as the last request.
pub proof fn lemma_compositor_is_the_last_resort(platform: spec_fn(Request) -> bool)
    ensures
        occurrences(issued(platform), Request::compositor()) == if accent_applied(platform) {
            0nat
        } else {
            1nat
        },
        !accent_applied(platform) ==> issued(platform).last() == Request::compositor(),
{
    lemma_occurrences_of_issued(platform);
}

/// The tint of the acrylic policy has the alpha `0x7F`, which is not zero, and
/// every descriptor that a probe submits to the setter carries that tint
/// under the accent-policy selector.
pub proof fn lemma_submitted_tint_is_visible(platform: spec_fn(Request) -> bool)
    ensures
        AccentPolicy::acrylic().spec_alpha() == 0x7F,
        forall|i: int|
            0 <= i < issued(platform).len() ==> (#[trigger] issued(platform)[i]
                matches Request::SetCompositionAttribute(descriptor) ==> {
                &&& descriptor.well_formed()
                &&& descriptor.data.spec_alpha() != 0
                &&& descriptor.data.gradient_color == AccentPolicy::acrylic().gradient_color
            }),
{
    let color = AccentPolicy::acrylic().gradient_color;
    assert(color / 0x100_0000 == 0x7F);
}

/// The retry submits the descriptor of the first attempt with nothing but
/// the effect mode changed.
pub proof fn lemma_retry_changes_only_the_mode()
    ensures
        Request::acrylic() matches Request::SetCompositionAttribute(first)
            && Request::plain_blur() == Request::SetCompositionAttribute(
            CompositionAttributeData {
                data: AccentPolicy { accent_state: ACCENT_ENABLE_BLURBEHIND, ..first.data },
                ..first
            },
        ),
        Request::acrylic() != Request::plain_blur(),
{
}

/// No probe makes a request twice, none makes fewer than two or more than
/// five, and each begins by loading the library.
pub proof fn lemma_requests_are_not_repeated(platform: spec_fn(Request) -> bool)
    ensures
        issued(platform).no_duplicates(),
        2 <= issued(platform).len() <= 5,
        issued(platform)[0] == Request::LoadLibrary,
        forall|i: int|
            0 <= i < issued(platform).len() ==> (#[trigger] issued(platform)[i]).made_by_probes(),
{
}

/// A probe sees of a platform only its answers to the requests that it
/// makes: two platforms that agree on those get the same requests and the
/// same answer.
pub proof fn lemma_only_issued_requests_matter(
    platform: spec_fn(Request) -> bool,
    other: spec_fn(Request) -> bool,
)
    requires
        forall|i: int|
            0 <= i < issued(platform).len() ==> other(#[trigger] issued(platform)[i]) == platform(
                issued(platform)[i],
            ),
    ensures
        issued(other) == issued(platform),
        applied(other) == applied(platform),
{
    let made = issued(platform);
    assert(made[0] == Request::LoadLibrary);
    if platform(Request::LoadLibrary) {
        assert(made[1] == Request::ResolveSetter);
        if platform(Request::ResolveSetter) {
            assert(made[2] == Request::acrylic());
            if !platform(Request::acrylic()) {
                assert(made[3] == Request::plain_blur());
                if !platform(Request::plain_blur()) {
                    assert(made[4] == Request::compositor());
                }
            }
        } else {
            assert(made[2] == Request::compositor());
        }
    } else {
        assert(made[1] == Request::compositor());
    }
}

/// How often each request occurs among those of a probe.
proof fn lemma_occurrences_of_issued(platform: spec_fn(Request) -> bool)
    ensures
        occurrences(issued(platform), Request::LoadLibrary) == 1,
        occurrences(issued(platform), Request::ResolveSetter) == if platform(
            Request::LoadLibrary,
        ) {
            1nat
        } else {
            0nat
        },
        occurrences(issued(platform), Request::acrylic()) == if setter_available(platform) {
            1nat
        } else {
            0nat
        },
        occurrences(issued(platform), Request::plain_blur()) == if setter_available(platform)
            && !platform(Request::acrylic()) {
            1nat
        } else {
            0nat
        },
        occurrences(issued(platform), Request::compositor()) == if accent_applied(platform) {
            0nat
        } else {
            1nat
        },
{
    reveal_with_fuel(Seq::filter, 6);
    let made = issued(platform);
    assert(made.drop_last().len() == made.len() - 1);
}

} // verus!
