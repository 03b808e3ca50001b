use social_preview::layout::{
    checked_layout, fits, layout, Layout, IMAGE_BORDER, LINE_HEIGHT, MIN_PHOTO_AREA_WIDTH,
};

#[test]
fn layout_of_a_landscape_photo() {
    let l = layout(800, 600, 100, 24);
    assert_eq!(
        l,
        Layout {
            photo_width: 800,
            photo_height: 600,
            photo_translate: 400,
            border: 100,
            image_width: 1000,
            image_height: 920,
            line_1_y: 748,
            line_2_y: 784,
            line_3_y: 820,
            line_1_x_r: 900,
            line_2_x: 500,
        }
    );
}

#[test]
fn layout_is_the_same_for_the_same_photo() {
    assert_eq!(layout(900, 675, IMAGE_BORDER, LINE_HEIGHT), layout(900, 675, 100, 24));
    assert_eq!(checked_layout(900, 675, 100, 24), Some(layout(900, 675, 100, 24)));
}

#[test]
fn narrow_photo_gets_the_minimum_width() {
    let l = layout(300, 900, 100, 24);
    assert_eq!(MIN_PHOTO_AREA_WIDTH, 600);
    assert_eq!(l.image_width, 800);
    assert_eq!(l.image_height, 1220);
    assert_eq!(l.photo_translate, 150);
    assert_eq!(l.line_1_x_r, 700);
    assert_eq!(l.line_2_x, 400);
    assert_eq!(layout(600, 1, 0, 0).image_width, 600);
    assert_eq!(layout(601, 1, 0, 0).image_width, 601);
}

#[test]
fn half_a_pixel_of_the_middle_line_is_dropped() {
    let l = layout(900, 100, 10, 25);
    assert_eq!(l.line_1_y, 160);
    assert_eq!(l.line_2_y, 197);
    assert_eq!(l.line_3_y, 235);
    assert_eq!(l.image_height, 245);
    assert_eq!(layout(900, 100, 10, 1).line_2_y, 113);
}

#[test]
fn layout_ends_at_32_bits() {
    assert!(fits(u32::MAX - 200, u32::MAX - 320, 100, 24));
    assert!(!fits(u32::MAX - 199, 600, 100, 24));
    assert!(!fits(800, u32::MAX - 319, 100, 24));
    assert!(!fits(800, 600, u32::MAX, 24));
    assert!(!fits(800, 600, 100, u32::MAX));
    assert_eq!(checked_layout(u32::MAX, 600, 100, 24), None);
    let l = layout(u32::MAX - 200, u32::MAX - 320, 100, 24);
    assert_eq!(l.image_width, u32::MAX);
    assert_eq!(l.image_height, u32::MAX);
    assert_eq!(l.line_3_y, u32::MAX - 100);
    let tall = layout(0, 0, 0, u32::MAX / 5);
    assert_eq!(tall.line_2_y, 3006477106);
}
