use social_preview::template::is_plain_template;

#[test]
fn text_without_braces_is_plain() {
    assert!(is_plain_template(""));
    assert!(is_plain_template("<svg xmlns=\"http://www.w3.org/2000/svg\"/>"));
    assert!(is_plain_template("{"));
    assert!(is_plain_template("}} %} { } {x} {a{b"));
    assert!(is_plain_template("järvi {"));
}

#[test]
fn placeholder_is_a_field_name_in_braces() {
    for name in [
        "photo", "photo_width", "photo_translate", "photo_height", "border", "image_width",
        "image_height", "line_1_y", "line_2_y", "line_3_y", "line_1_x_r", "line_2_x", "date",
        "text_en", "text_fi", "text_fr",
    ] {
        assert!(is_plain_template(&format!("{{{{{}}}}}", name)));
        assert!(is_plain_template(&format!("a {{{{ {}   }}}} b", name)));
    }
    assert!(is_plain_template("{{photo}}{{date}}"));
    assert!(is_plain_template("{ {{photo}} }"));
}

#[test]
fn what_else_opens_with_two_braces_is_not_plain() {
    assert!(!is_plain_template("{{ caption }}"));
    assert!(!is_plain_template("{{ photo_widt }}"));
    assert!(!is_plain_template("{{ photo_widthh }}"));
    assert!(!is_plain_template("{{ photo"));
    assert!(!is_plain_template("{{ photo }"));
    assert!(!is_plain_template("{{ photo } }"));
    assert!(!is_plain_template("{{"));
    assert!(!is_plain_template("{{}}"));
    assert!(!is_plain_template("{{ }}"));
    assert!(!is_plain_template("{{- photo }}"));
    assert!(!is_plain_template("{{ photo -}}"));
    assert!(!is_plain_template("{{\tphoto }}"));
    assert!(!is_plain_template("{{ photo | upcase }}"));
    assert!(!is_plain_template("{{ photo.x }}"));
    assert!(!is_plain_template("{{ 42 }}"));
    assert!(!is_plain_template("{{{photo}}}"));
    assert!(!is_plain_template("{{photo}}{{"));
}

#[test]
fn tag_is_not_plain() {
    assert!(!is_plain_template("{% if photo %}"));
    assert!(!is_plain_template("a{%"));
    assert!(!is_plain_template("{{photo}} {%- raw -%}"));
    assert!(is_plain_template("{ %"));
    assert!(is_plain_template("%{"));
}
