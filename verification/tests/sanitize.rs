use social_preview::sanitize::sanitize_text;

#[test]
fn ampersand_is_escaped() {
    assert_eq!(sanitize_text("Cats & Dogs"), "Cats &amp; Dogs");
}

#[test]
fn text_without_ampersand_is_kept() {
    assert_eq!(sanitize_text("Järvi <i>\"talvella\"</i>"), "Järvi <i>\"talvella\"</i>");
    assert_eq!(sanitize_text(""), "");
}

#[test]
fn every_ampersand_is_escaped() {
    assert_eq!(sanitize_text("&&"), "&amp;&amp;");
    assert_eq!(sanitize_text("a&b&c"), "a&amp;b&amp;c");
    assert_eq!(sanitize_text("&amp;"), "&amp;amp;");
}

#[test]
fn escaping_agrees_with_replace() {
    for text in ["", "&", "R&D", "Rock & Roll & Blues", "été & hiver", "no ampersand", "&&&&"] {
        assert_eq!(sanitize_text(text), text.replace('&', "&amp;"));
    }
}
