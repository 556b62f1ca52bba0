use std::cell::RefCell;

use overlay_blur::{
    apply_overlay_blur, AccentPolicy, BlurBehind, CompositionAttributeData, Request,
    ACCENT_ENABLE_ACRYLICBLURBEHIND, ACCENT_ENABLE_BLURBEHIND,
};
use windows::Win32::Foundation::HWND;

/// A platform whose answers are fixed in advance.
#[derive(Clone, Copy)]
struct Script {
    library: bool,
    setter: bool,
    acrylic: bool,
    plain_blur: bool,
    compositor: bool,
}

fn answer(script: &Script, request: &Request) -> bool {
    match request {
        Request::LoadLibrary => script.library,
        Request::ResolveSetter => script.setter,
        Request::SetCompositionAttribute(descriptor) => {
            if descriptor.data.accent_state == ACCENT_ENABLE_ACRYLICBLURBEHIND {
                script.acrylic
            } else {
                script.plain_blur
            }
        }
        Request::EnableBlurBehind(_) => script.compositor,
    }
}

/// Runs the probe on the scripted platform and hands back its answer with
/// every call that was made.
fn run(script: Script) -> (bool, Vec<(HWND, Request)>) {
    let calls: RefCell<Vec<(HWND, Request)>> = RefCell::new(Vec::new());
    let blurred = apply_overlay_blur(HWND(0x51), |hwnd: HWND, request: Request| {
        calls.borrow_mut().push((hwnd, request));
        answer(&script, &request)
    });
    (blurred, calls.into_inner())
}

fn requests(calls: &[(HWND, Request)]) -> Vec<Request> {
    calls.iter().map(|call| call.1).collect()
}

fn composition_calls(calls: &[(HWND, Request)]) -> usize {
    calls.iter().filter(|call| matches!(call.1, Request::SetCompositionAttribute(_))).count()
}

fn compositor_calls(calls: &[(HWND, Request)]) -> usize {
    calls.iter().filter(|call| matches!(call.1, Request::EnableBlurBehind(_))).count()
}

fn acrylic_request() -> Request {
    Request::SetCompositionAttribute(CompositionAttributeData {
        attribute: 19,
        data: AccentPolicy {
            accent_state: 4,
            accent_flags: 0,
            gradient_color: 0x7F1E1E1E,
            animation_id: 0,
        },
        size: 16,
    })
}

fn plain_blur_request() -> Request {
    Request::SetCompositionAttribute(CompositionAttributeData {
        attribute: 19,
        data: AccentPolicy {
            accent_state: 3,
            accent_flags: 0,
            gradient_color: 0x7F1E1E1E,
            animation_id: 0,
        },
        size: 16,
    })
}

fn compositor_request() -> Request {
    Request::EnableBlurBehind(BlurBehind {
        flags: 1,
        enable: true,
        region: None,
        transition_on_maximized: false,
    })
}

#[test]
fn all_three_os_calls_failing_gives_false_after_three_calls() {
    let (blurred, calls) = run(Script {
        library: true,
        setter: true,
        acrylic: false,
        plain_blur: false,
        compositor: false,
    });
    assert!(!blurred);
    assert_eq!(composition_calls(&calls), 2);
    assert_eq!(compositor_calls(&calls), 1);
    assert_eq!(
        requests(&calls),
        vec![
            Request::LoadLibrary,
            Request::ResolveSetter,
            acrylic_request(),
            plain_blur_request(),
            compositor_request(),
        ]
    );
}

#[test]
fn missing_symbol_gives_false_and_asks_compositor_once() {
    let (blurred, calls) = run(Script {
        library: true,
        setter: false,
        acrylic: true,
        plain_blur: true,
        compositor: false,
    });
    assert!(!blurred);
    assert_eq!(composition_calls(&calls), 0);
    assert_eq!(compositor_calls(&calls), 1);
    assert_eq!(
        requests(&calls),
        vec![Request::LoadLibrary, Request::ResolveSetter, compositor_request()]
    );
}

#[test]
fn missing_library_gives_false_and_asks_compositor_once() {
    let (blurred, calls) = run(Script {
        library: false,
        setter: true,
        acrylic: true,
        plain_blur: true,
        compositor: false,
    });
    assert!(!blurred);
    assert_eq!(requests(&calls), vec![Request::LoadLibrary, compositor_request()]);
}

#[test]
fn missing_symbol_with_willing_compositor_gives_true() {
    let (blurred, calls) = run(Script {
        library: true,
        setter: false,
        acrylic: false,
        plain_blur: false,
        compositor: true,
    });
    assert!(blurred);
    assert_eq!(compositor_calls(&calls), 1);
    assert_eq!(composition_calls(&calls), 0);
}

#[test]
fn acrylic_success_stops_the_probe() {
    let (blurred, calls) = run(Script {
        library: true,
        setter: true,
        acrylic: true,
        plain_blur: false,
        compositor: false,
    });
    assert!(blurred);
    assert_eq!(
        requests(&calls),
        vec![Request::LoadLibrary, Request::ResolveSetter, acrylic_request()]
    );
    assert_eq!(compositor_calls(&calls), 0);
}

#[test]
fn plain_blur_success_skips_the_compositor() {
    let (blurred, calls) = run(Script {
        library: true,
        setter: true,
        acrylic: false,
        plain_blur: true,
        compositor: false,
    });
    assert!(blurred);
    assert_eq!(
        requests(&calls),
        vec![
            Request::LoadLibrary,
            Request::ResolveSetter,
            acrylic_request(),
            plain_blur_request(),
        ]
    );
    assert_eq!(compositor_calls(&calls), 0);
}

#[test]
fn compositor_answer_is_final_after_both_refusals() {
    let (blurred, calls) = run(Script {
        library: true,
        setter: true,
        acrylic: false,
        plain_blur: false,
        compositor: true,
    });
    assert!(blurred);
    assert_eq!(composition_calls(&calls), 2);
    assert_eq!(compositor_calls(&calls), 1);
    assert_eq!(calls.last().map(|call| call.1), Some(compositor_request()));
}

#[test]
fn every_call_gets_the_given_window() {
    let (_, calls) = run(Script {
        library: true,
        setter: true,
        acrylic: false,
        plain_blur: false,
        compositor: false,
    });
    assert_eq!(calls.len(), 5);
    for call in &calls {
        assert_eq!(call.0, HWND(0x51));
    }
}

#[test]
fn acrylic_attempt_carries_a_visible_tint() {
    let (_, calls) = run(Script {
        library: true,
        setter: true,
        acrylic: true,
        plain_blur: true,
        compositor: true,
    });
    match calls[2].1 {
        Request::SetCompositionAttribute(descriptor) => {
            assert_ne!(descriptor.data.gradient_color >> 24, 0x00);
            assert_eq!(descriptor.data.gradient_color, 0x7F1E1E1E);
            assert_eq!(descriptor.data.accent_state, ACCENT_ENABLE_ACRYLICBLURBEHIND);
        }
        other => panic!("unexpected request {:?}", other),
    }
}

#[test]
fn retry_differs_from_first_attempt_in_mode_only() {
    let (_, calls) = run(Script {
        library: true,
        setter: true,
        acrylic: false,
        plain_blur: true,
        compositor: true,
    });
    let first = match calls[2].1 {
        Request::SetCompositionAttribute(descriptor) => descriptor,
        other => panic!("unexpected request {:?}", other),
    };
    let retry = match calls[3].1 {
        Request::SetCompositionAttribute(descriptor) => descriptor,
        other => panic!("unexpected request {:?}", other),
    };
    assert_eq!(first.data.accent_state, ACCENT_ENABLE_ACRYLICBLURBEHIND);
    assert_eq!(retry.data.accent_state, ACCENT_ENABLE_BLURBEHIND);
    let mut expected = first;
    expected.data.accent_state = ACCENT_ENABLE_BLURBEHIND;
    assert_eq!(retry, expected);
}

#[test]
fn answer_and_requests_match_closed_form_on_every_platform() {
    for bits in 0u32..32 {
        let script = Script {
            library: bits & 1 != 0,
            setter: bits & 2 != 0,
            acrylic: bits & 4 != 0,
            plain_blur: bits & 8 != 0,
            compositor: bits & 16 != 0,
        };
        let (blurred, calls) = run(script);
        let accent =
            script.library && script.setter && (script.acrylic || script.plain_blur);
        assert_eq!(blurred, accent || script.compositor);
        let mut expected = vec![Request::LoadLibrary];
        if script.library {
            expected.push(Request::ResolveSetter);
            if script.setter {
                expected.push(acrylic_request());
                if !script.acrylic {
                    expected.push(plain_blur_request());
                }
            }
        }
        if !accent {
            expected.push(compositor_request());
        }
        assert_eq!(requests(&calls), expected);
    }
}
