use rustopia::collision::{platform_response, PlatformResponse};

#[test]
fn one_way_platform_lands_a_falling_body() {
    assert_eq!(platform_response(true, false, true, true, true, false, false, true), PlatformResponse::Land);
}

#[test]
fn one_way_platform_lets_dropping_body_through() {
    assert_eq!(platform_response(true, true, true, false, false, false, false, true), PlatformResponse::Pass);
}

#[test]
fn one_way_platform_ignores_body_not_landing() {
    assert_eq!(platform_response(true, false, false, true, true, false, true, false), PlatformResponse::Pass);
}

#[test]
fn solid_platform_pushes_against_horizontal_motion() {
    assert_eq!(platform_response(false, false, false, true, true, false, false, true), PlatformResponse::PushX { shift: -1 });
    assert_eq!(platform_response(false, true, true, true, false, true, false, false), PlatformResponse::PushX { shift: 1 });
    assert_eq!(platform_response(false, false, false, true, false, false, true, false), PlatformResponse::PushX { shift: 0 });
}

#[test]
fn solid_platform_pushes_against_vertical_motion() {
    assert_eq!(platform_response(false, false, false, false, true, false, false, true), PlatformResponse::PushY { shift: 1 });
    assert_eq!(platform_response(false, false, true, false, false, false, true, false), PlatformResponse::PushY { shift: -1 });
    assert_eq!(platform_response(false, false, false, false, false, false, false, false), PlatformResponse::PushY { shift: 0 });
}
