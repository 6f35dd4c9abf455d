use web_sys::WebGl2RenderingContext;
use webgl_resources::geometry::{GeometryBuffers, COMPONENTS_PER_VERTEX};
use webgl_resources::protocol::{
    Handle, Reply, ARRAY_BUFFER, COLOR_BUFFER_BIT, COMPILE_STATUS,
    ELEMENT_ARRAY_BUFFER, FLOAT, FRAGMENT_SHADER, HALF, LINK_STATUS, MINUS_HALF, NO_ERROR, ONE,
    STATIC_DRAW, TRIANGLES, UNSIGNED_SHORT, VERTEX_SHADER, ZERO,
};

#[test]
fn constants_are_those_of_the_context() {
    assert_eq!(NO_ERROR, WebGl2RenderingContext::NO_ERROR);
    assert_eq!(TRIANGLES, WebGl2RenderingContext::TRIANGLES);
    assert_eq!(COLOR_BUFFER_BIT, WebGl2RenderingContext::COLOR_BUFFER_BIT);
    assert_eq!(UNSIGNED_SHORT, WebGl2RenderingContext::UNSIGNED_SHORT);
    assert_eq!(FLOAT, WebGl2RenderingContext::FLOAT);
    assert_eq!(ARRAY_BUFFER, WebGl2RenderingContext::ARRAY_BUFFER);
    assert_eq!(ELEMENT_ARRAY_BUFFER, WebGl2RenderingContext::ELEMENT_ARRAY_BUFFER);
    assert_eq!(STATIC_DRAW, WebGl2RenderingContext::STATIC_DRAW);
    assert_eq!(FRAGMENT_SHADER, WebGl2RenderingContext::FRAGMENT_SHADER);
    assert_eq!(VERTEX_SHADER, WebGl2RenderingContext::VERTEX_SHADER);
    assert_eq!(COMPILE_STATUS, WebGl2RenderingContext::COMPILE_STATUS);
    assert_eq!(LINK_STATUS, WebGl2RenderingContext::LINK_STATUS);
}

#[test]
fn bit_patterns_are_the_numbers_they_stand_for() {
    assert_eq!(f32::from_bits(ZERO), 0.0);
    assert_eq!(f32::from_bits(HALF), 0.5);
    assert_eq!(f32::from_bits(MINUS_HALF), -0.5);
    assert_eq!(f32::from_bits(ONE), 1.0);
}

#[test]
fn quad_corners_are_half_a_unit_from_the_centre() {
    let quad = GeometryBuffers::quad();
    let numbers: Vec<f32> = quad.vertices.iter().map(|bits| f32::from_bits(*bits)).collect();
    assert_eq!(
        numbers,
        vec![-0.5, 0.5, 0.0, -0.5, -0.5, 0.0, 0.5, -0.5, 0.0, 0.5, 0.5, 0.0]
    );
    assert_eq!(COMPONENTS_PER_VERTEX, 3);
}

#[test]
fn reply_object() {
    assert_eq!(Reply::Object(Handle(9)).object(), Some(Handle(9)));
    assert_eq!(Reply::Nothing.object(), None);
    assert_eq!(Reply::Code(9).object(), None);
    assert_eq!(Reply::Location(9).object(), None);
}

#[test]
fn reply_confirms_only_a_set_flag() {
    assert!(Reply::Flag(true).confirms());
    assert!(!Reply::Flag(false).confirms());
    assert!(!Reply::Nothing.confirms());
    assert!(!Reply::Object(Handle(1)).confirms());
    assert!(!Reply::Text(String::from("true")).confirms());
    assert!(!Reply::Code(1).confirms());
}

#[test]
fn reply_text_or_fallback() {
    assert_eq!(Reply::Text(String::from("log")).text_or("none"), "log");
    assert_eq!(Reply::Text(String::new()).text_or("none"), "");
    assert_eq!(Reply::Nothing.text_or("none"), "none");
    assert_eq!(Reply::Flag(false).text_or("none"), "none");
}

#[test]
fn reply_slot_is_a_location_that_is_not_negative() {
    assert_eq!(Reply::Location(0).slot(), Some(0));
    assert_eq!(Reply::Location(7).slot(), Some(7));
    assert_eq!(Reply::Location(i32::MAX).slot(), Some(2147483647));
    assert_eq!(Reply::Location(-1).slot(), None);
    assert_eq!(Reply::Location(i32::MIN).slot(), None);
    assert_eq!(Reply::Nothing.slot(), None);
    assert_eq!(Reply::Code(3).slot(), None);
}

#[test]
fn reply_pending_error() {
    assert_eq!(Reply::Code(0).pending_error(), None);
    assert_eq!(Reply::Code(1281).pending_error(), Some(1281));
    assert_eq!(Reply::Code(u32::MAX).pending_error(), Some(u32::MAX));
    assert_eq!(Reply::Nothing.pending_error(), None);
    assert_eq!(Reply::Location(5).pending_error(), None);
}
