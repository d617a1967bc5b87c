use web_sys::WebGlRenderingContext;
use webgl_cube::codes;

#[test]
fn codes_have_their_standard_values() {
    assert_eq!(codes::DEPTH_BUFFER_BIT, 0x0100);
    assert_eq!(codes::COLOR_BUFFER_BIT, 0x4000);
    assert_eq!(codes::TRIANGLES, 0x0004);
    assert_eq!(codes::LEQUAL, 0x0203);
    assert_eq!(codes::DEPTH_TEST, 0x0B71);
    assert_eq!(codes::UNSIGNED_SHORT, 0x1403);
    assert_eq!(codes::FLOAT, 0x1406);
    assert_eq!(codes::ARRAY_BUFFER, 0x8892);
    assert_eq!(codes::ELEMENT_ARRAY_BUFFER, 0x8893);
    assert_eq!(codes::STATIC_DRAW, 0x88E4);
    assert_eq!(codes::FRAGMENT_SHADER, 0x8B30);
    assert_eq!(codes::VERTEX_SHADER, 0x8B31);
    assert_eq!(codes::COMPILE_STATUS, 0x8B81);
    assert_eq!(codes::LINK_STATUS, 0x8B82);
}

#[test]
fn codes_agree_with_the_browser_bindings() {
    assert_eq!(codes::DEPTH_BUFFER_BIT, WebGlRenderingContext::DEPTH_BUFFER_BIT);
    assert_eq!(codes::COLOR_BUFFER_BIT, WebGlRenderingContext::COLOR_BUFFER_BIT);
    assert_eq!(codes::TRIANGLES, WebGlRenderingContext::TRIANGLES);
    assert_eq!(codes::LEQUAL, WebGlRenderingContext::LEQUAL);
    assert_eq!(codes::DEPTH_TEST, WebGlRenderingContext::DEPTH_TEST);
    assert_eq!(codes::UNSIGNED_SHORT, WebGlRenderingContext::UNSIGNED_SHORT);
    assert_eq!(codes::FLOAT, WebGlRenderingContext::FLOAT);
    assert_eq!(codes::ARRAY_BUFFER, WebGlRenderingContext::ARRAY_BUFFER);
    assert_eq!(codes::ELEMENT_ARRAY_BUFFER, WebGlRenderingContext::ELEMENT_ARRAY_BUFFER);
    assert_eq!(codes::STATIC_DRAW, WebGlRenderingContext::STATIC_DRAW);
    assert_eq!(codes::FRAGMENT_SHADER, WebGlRenderingContext::FRAGMENT_SHADER);
    assert_eq!(codes::VERTEX_SHADER, WebGlRenderingContext::VERTEX_SHADER);
    assert_eq!(codes::COMPILE_STATUS, WebGlRenderingContext::COMPILE_STATUS);
    assert_eq!(codes::LINK_STATUS, WebGlRenderingContext::LINK_STATUS);
}

#[test]
fn clear_mask_names_colour_and_depth() {
    assert_eq!(codes::CLEAR_MASK, 16640);
    assert_eq!(
        codes::CLEAR_MASK,
        WebGlRenderingContext::COLOR_BUFFER_BIT | WebGlRenderingContext::DEPTH_BUFFER_BIT
    );
}
