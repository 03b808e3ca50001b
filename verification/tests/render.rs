use social_preview::layout::layout;
use social_preview::metadata::{get_metadata, PhotoInfo, Title};
use social_preview::normalize::{get_png, NormalizedImage, SourceFormat};
use social_preview::render::{
    artifact_from, document_from, generate, parse_template, rasterize_document, render_document,
    template_globals, RenderError, RenderedArtifact, ARTIFACT_FILE_NAME, NOT_PLAIN,
};
use std::io::{Cursor, Write};

const TEMPLATE: &str = r##"<svg xmlns="http://www.w3.org/2000/svg" xmlns:xlink="http://www.w3.org/1999/xlink" width="{{image_width}}" height="{{image_height}}">
<rect width="{{image_width}}" height="{{image_height}}" fill="#ffffff"/>
<image xlink:href="{{photo}}" x="{{border}}" y="{{border}}" width="{{photo_width}}" height="{{photo_height}}"/>
<text x="{{line_1_x_r}}" y="{{line_1_y}}" text-anchor="end">{{date}}</text>
<text x="{{line_2_x}}" y="{{line_1_y}}" text-anchor="middle">{{text_en}}</text>
<text x="{{line_2_x}}" y="{{line_2_y}}" text-anchor="middle">{{text_fi}}</text>
<text x="{{line_2_x}}" y="{{line_3_y}}" text-anchor="middle">{{text_fr}}</text>
</svg>"##;

fn info(en: &str, fi: &str, fr: &str, date_taken: &str) -> PhotoInfo {
    PhotoInfo {
        title: Title { en: en.to_string(), fi: fi.to_string(), fr: fr.to_string() },
        date_taken: date_taken.to_string(),
    }
}

fn scalar(value: &str) -> liquid::model::Value {
    liquid::model::Value::scalar(value.to_string())
}

#[test]
fn globals_bind_every_field() {
    let l = layout(800, 600, 100, 24);
    let globals = template_globals(
        &info("Cats & Dogs", "Kissat", "Chats", "2024-05-01T10:00:00Z"),
        "/tmp/x/tmp.png",
        &l,
    );
    let mut expected = liquid::Object::new();
    expected.insert("photo".into(), scalar("/tmp/x/tmp.png"));
    expected.insert("photo_width".into(), liquid::model::Value::scalar(800i64));
    expected.insert("photo_translate".into(), liquid::model::Value::scalar(400i64));
    expected.insert("photo_height".into(), liquid::model::Value::scalar(600i64));
    expected.insert("border".into(), liquid::model::Value::scalar(100i64));
    expected.insert("image_width".into(), liquid::model::Value::scalar(1000i64));
    expected.insert("image_height".into(), liquid::model::Value::scalar(920i64));
    expected.insert("line_1_y".into(), liquid::model::Value::scalar(748i64));
    expected.insert("line_2_y".into(), liquid::model::Value::scalar(784i64));
    expected.insert("line_3_y".into(), liquid::model::Value::scalar(820i64));
    expected.insert("line_1_x_r".into(), liquid::model::Value::scalar(900i64));
    expected.insert("line_2_x".into(), liquid::model::Value::scalar(500i64));
    expected.insert("date".into(), scalar("2024-05-01"));
    expected.insert("text_en".into(), scalar("Cats &amp; Dogs"));
    expected.insert("text_fi".into(), scalar("Kissat"));
    expected.insert("text_fr".into(), scalar("Chats"));
    assert_eq!(globals, expected);
}

#[test]
fn document_holds_escaped_caption_and_date() {
    let template = parse_template(TEMPLATE).unwrap();
    let l = layout(800, 600, 100, 24);
    let svg = render_document(
        &template,
        &info("Cats & Dogs", "Kissat", "Chats", "2024-05-01T10:00:00Z"),
        "tmp.png",
        &l,
    )
    .unwrap();
    assert!(svg.contains(">Cats &amp; Dogs<"));
    assert!(svg.contains(">Kissat<"));
    assert!(svg.contains(">Chats<"));
    assert!(svg.contains(">2024-05-01<"));
    assert!(svg.contains("width=\"1000\" height=\"920\""));
    assert!(svg.contains("xlink:href=\"tmp.png\""));
    assert!(svg.contains("x=\"900\" y=\"748\""));
    assert!(svg.contains("x=\"500\" y=\"784\""));
    assert!(svg.contains("x=\"500\" y=\"820\""));
}

#[test]
fn template_that_does_not_parse_is_an_error() {
    assert!(matches!(parse_template("{% if %}"), Err(RenderError::Template(_))));
    assert!(matches!(parse_template("{{ photo"), Err(RenderError::Template(_))));
}

#[test]
fn template_with_an_unknown_field_is_an_error() {
    assert_eq!(
        parse_template("<svg>{{ caption }}</svg>").err(),
        Some(RenderError::Template(NOT_PLAIN.to_string()))
    );
}

#[test]
fn template_with_tags_filters_or_numbers_is_refused() {
    for text in [
        "{{ 99999999999999999999 }}",
        "{{ -9223372036854775808 | divided_by: -1 }}",
        "{{ text_en | divided_by: 0 }}",
        "{{ photo_width | plus: 1 }}",
        "{% if photo %}x{% endif %}",
        "{%- comment -%}",
        "{{- photo -}}",
        "{{ photo.width }}",
        "{{ 'now' | date: '%Y' }}",
        "{{ photo",
        "{{ photo }",
        "{{}}",
        "{{{ photo }}}",
        "{{ photo date }}",
        "{{\nphoto }}",
        "a {{ Photo }} b",
    ] {
        assert_eq!(
            parse_template(text).err(),
            Some(RenderError::Template(NOT_PLAIN.to_string()))
        );
    }
}

#[test]
fn template_of_text_and_placeholders_is_read_and_rendered() {
    let l = layout(800, 600, 100, 24);
    let meta = info("Cats & Dogs", "Kissat", "Chats", "2024-05-01T10:00:00Z");
    for (text, expected) in [
        ("", ""),
        ("no placeholder { } }} %} {", "no placeholder { } }} %} {"),
        ("{{photo}}", "tmp.png"),
        ("{{   text_en   }}", "Cats &amp; Dogs"),
        ("<a {{date}}{{border}}/>{", "<a 2024-05-01100/>{"),
        ("{ {{line_1_x_r}} }", "{ 900 }"),
        ("{{text_fi}}{{ text_fr }}{", "KissatChats{"),
    ] {
        let template = parse_template(text).unwrap();
        assert_eq!(render_document(&template, &meta, "tmp.png", &l), Ok(expected.to_string()));
    }
}

#[test]
fn text_that_is_no_vector_document_is_an_error() {
    let options = usvg::Options::default();
    assert!(matches!(
        rasterize_document("plain text", &options, 100, 100),
        Err(RenderError::Document(_))
    ));
    assert!(matches!(
        rasterize_document("<svg", &options, 100, 100),
        Err(RenderError::Document(_))
    ));
}

#[test]
fn canvas_without_pixels_is_an_error() {
    let options = usvg::Options::default();
    let svg = "<svg xmlns=\"http://www.w3.org/2000/svg\" width=\"10\" height=\"10\"/>";
    assert_eq!(rasterize_document(svg, &options, 0, 10), Err(RenderError::Canvas));
    assert_eq!(rasterize_document(svg, &options, 10, 0), Err(RenderError::Canvas));
    let drawn = rasterize_document(svg, &options, 10, 20).unwrap();
    assert_eq!((drawn.width, drawn.height), (10, 20));
}

#[test]
fn artifact_has_canvas_size() {
    let template = parse_template(TEMPLATE).unwrap();
    let png = NormalizedImage::new("tmp.png".to_string(), 900, 675).unwrap();
    let options = usvg::Options::default();
    let artifact =
        generate(&template, &options, &info("Lake", "Järvi", "Lac", "2024-05-01T10:00:00Z"), &png)
            .unwrap();
    assert_eq!((artifact.width, artifact.height), (1100, 995));
    let decoded = image::load_from_memory(&artifact.png).unwrap();
    assert_eq!((decoded.width(), decoded.height()), (1100, 995));
}

#[test]
fn scan_with_metadata_becomes_an_artifact() {
    assert_eq!(ARTIFACT_FILE_NAME, "_to_social.png");
    let scan = image::RgbImage::from_pixel(4000, 3000, image::Rgb([10, 120, 200]));
    let mut tiff = Cursor::new(Vec::new());
    scan.write_to(&mut tiff, image::ImageFormat::Tiff).unwrap();
    let metadata =
        get_metadata(info("Lake", "Järvi", "Lac", "2024-05-01T10:00:00Z")).unwrap();

    let mut raster = tempfile::Builder::new().prefix("tmp").suffix(".png").tempfile().unwrap();
    let raster_path = raster.path().to_str().unwrap().to_string();
    let (normalized, bytes) =
        get_png(tiff.get_ref(), SourceFormat::of_file("scan.tif"), raster_path).unwrap();
    assert_eq!((normalized.width, normalized.height), (900, 675));
    raster.write_all(&bytes).unwrap();
    raster.flush().unwrap();

    let template = parse_template(TEMPLATE).unwrap();
    let l = layout(normalized.width, normalized.height, 100, 24);
    let svg = render_document(&template, &metadata, &normalized.raster_path, &l).unwrap();
    assert!(svg.contains(">2024-05-01<"));
    assert!(svg.contains(">Lake<"));
    assert!(svg.contains(">Järvi<"));
    assert!(svg.contains(">Lac<"));

    let options = usvg::Options::default();
    let artifact = generate(&template, &options, &metadata, &normalized).unwrap();
    assert_eq!((artifact.width, artifact.height), (1100, 995));
    let drawn = image::load_from_memory(&artifact.png).unwrap().to_rgb8();
    assert_eq!(drawn.get_pixel(550, 400), &image::Rgb([10, 120, 200]));
    assert_eq!(drawn.get_pixel(50, 50), &image::Rgb([255, 255, 255]));
    assert_eq!(drawn.get_pixel(1050, 400), &image::Rgb([255, 255, 255]));

    let again = generate(&template, &options, &metadata, &normalized).unwrap();
    assert_eq!(again, artifact);
}

#[test]
fn renderer_answer_becomes_document_or_error() {
    assert_eq!(document_from(Ok("<svg/>".to_string())), Ok("<svg/>".to_string()));
    assert_eq!(
        document_from(Err("unknown variable".to_string())),
        Err(RenderError::Template("unknown variable".to_string()))
    );
}

#[test]
fn encoder_answer_becomes_artifact_or_error() {
    assert_eq!(
        artifact_from(Ok(vec![3, 4]), 1100, 995),
        Ok(RenderedArtifact { png: vec![3, 4], width: 1100, height: 995 })
    );
    assert_eq!(
        artifact_from(Err("disk".to_string()), 1100, 995),
        Err(RenderError::Encode("disk".to_string()))
    );
}

#[test]
fn template_parses_or_not_by_its_text() {
    assert!(parse_template("").is_ok());
    assert!(parse_template("<svg>{{ photo }}</svg>").is_ok());
    assert!(parse_template("{% for x in y %}").is_err());
    assert!(parse_template("{{ photo | no_such_filter }}").is_err());
}
