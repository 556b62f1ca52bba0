//! The whole probe, run against a caller-supplied way of reaching the
//! operating system.

use vstd::prelude::*;
use crate::platform::{applied, issued, issued_before, reaches};
use crate::probe::{Request, Stage};

verus! {

/// The window handle of the `windows` crate: an identifier that the operating
/// system owns. Nothing here looks inside it; it is handed on as it came.
#[verifier::external_type_specification]
#[verifier::external_body]
pub struct ExHwnd(windows::Win32::Foundation::HWND);

/// Whether `platform` answers every request that a probe makes on it as
/// `perform`, called on `hwnd` and that request, may answer.
pub open spec fn answers_as<F: Fn(windows::Win32::Foundation::HWND, Request) -> bool>(
    perform: F,
    hwnd: windows::Win32::Foundation::HWND,
    platform: spec_fn(Request) -> bool,
) -> bool {
    forall|i: int|
        0 <= i < issued(platform).len() ==> call_ensures(
            perform,
            (hwnd, #[trigger] issued(platform)[i]),
            platform(issued(platform)[i]),
        )
}

/// Tries to put a blur-behind backdrop on the window `hwnd` and says whether
/// one of the attempts applied it.
///
/// `perform` makes one request against the operating system for the given
/// window and says whether it succeeded. The probe calls it on `hwnd`, stage
/// by stage, until an attempt succeeds or none is left. The result is that
/// of [`applied`] for a platform that answers each request of [`issued`] as
/// `perform` may answer it for `hwnd`.
pub fn apply_overlay_blur<F: Fn(windows::Win32::Foundation::HWND, Request) -> bool>(
    hwnd: windows::Win32::Foundation::HWND,
    perform: F,
) -> (blurred: bool)
    requires
        forall|request: Request|
            request.made_by_probes() ==> call_requires(perform, (hwnd, request)),
    ensures
        exists|platform: spec_fn(Request) -> bool|
            #[trigger] answers_as(perform, hwnd, platform) && blurred == applied(platform),
{
    let mut stage = Stage::start();
    let ghost mut platform: spec_fn(Request) -> bool = |request: Request| false;
    loop
        invariant
            forall|request: Request|
                request.made_by_probes() ==> call_requires(perform, (hwnd, request)),
            reaches(platform, stage),
            forall|i: int|
                0 <= i < issued_before(platform, stage).len() ==> call_ensures(
                    perform,
                    (hwnd, #[trigger] issued_before(platform, stage)[i]),
                    platform(issued_before(platform, stage)[i]),
                ),
        ensures
            stage.spec_outcome() is Some,
            reaches(platform, stage),
            answers_as(perform, hwnd, platform),
        decreases stage.remaining(),
    {
        match stage.pending() {
            None => {
                break ;
            },
            Some(request) => {
                let succeeded = perform(hwnd, request);
                let ghost before = platform;
                let ghost made = issued_before(platform, stage);
                proof {
                    platform =
                    |asked: Request|
                        if asked == request {
                            succeeded
                        } else {
                            before(asked)
                        };
                }
                stage = stage.advance(succeeded);
                assert(issued_before(platform, stage) =~= made.push(request));
            },
        }
    }
    match stage {
        Stage::Done => true,
        _ => false,
    }
}

} // verus!
