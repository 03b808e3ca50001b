//! The composed image: the values bound to the template's fields, the vector
//! document that the template renders to, and its pixels. `liquid` renders
//! the template, `usvg` reads the document, `resvg` and `tiny-skia` draw it.

use crate::layout::canvas_height;
use crate::layout::canvas_width;
use crate::layout::geometry;
use crate::layout::layout;
use crate::layout::Geometry;
use crate::layout::Layout;
use crate::layout::IMAGE_BORDER;
use crate::layout::LINE_HEIGHT;
use crate::metadata::calendar_date;
use crate::metadata::date_part;
use crate::metadata::PhotoInfo;
use crate::metadata::PhotoInfoText;
use crate::normalize::NormalizedImage;
use crate::sanitize::escaped;
use crate::sanitize::sanitize_text;
use crate::template::field_names;
use crate::template::is_plain_template;
use crate::template::plain_template;
use vstd::prelude::*;

verus! {

#[verifier::external_type_specification]
#[verifier::external_body]
pub struct ExObject(liquid::Object);

#[verifier::external_type_specification]
#[verifier::external_body]
pub struct ExTemplate(liquid::Template);

#[verifier::external_type_specification]
#[verifier::external_body]
pub struct ExLiquidError(liquid::Error);

#[verifier::external_type_specification]
#[verifier::external_body]
pub struct ExOptions<'a>(usvg::Options<'a>);

#[verifier::external_type_specification]
#[verifier::external_body]
pub struct ExTree(usvg::Tree);

#[verifier::external_type_specification]
#[verifier::external_body]
pub struct ExSvgError(usvg::Error);

#[verifier::external_type_specification]
#[verifier::external_body]
pub struct ExPixmap(tiny_skia::Pixmap);

/// Name of the artifact, which is written beside the source image.
pub const ARTIFACT_FILE_NAME: &'static str = "_to_social.png";

/// What a field of the template is bound to.
pub enum Field {
    Text(Seq<char>),
    Number(int),
}

/// A value to bind a field of the template to.
#[derive(Clone, Debug, PartialEq, Eq)]
pub enum FieldValue {
    Text(String),
    Number(u32),
}

impl View for FieldValue {
    type V = Field;

    open spec fn view(&self) -> Field {
        match self {
            FieldValue::Text(text) => Field::Text(text@),
            FieldValue::Number(number) => Field::Number(*number as int),
        }
    }
}

/// Why a photo could not be rendered.
#[derive(Clone, Debug, PartialEq, Eq)]
pub enum RenderError {
    /// The template could not be read or filled in. Holds the renderer's words.
    Template(String),
    /// The filled-in template is no vector document. Holds the reader's words.
    Document(String),
    /// No pixel buffer of the canvas's size could be had.
    Canvas,
    /// The pixels could not be written as PNG. Holds the encoder's words.
    Encode(String),
}

/// The final image as PNG, with the size of its canvas.
#[derive(Clone, Debug, PartialEq, Eq)]
pub struct RenderedArtifact {
    pub png: Vec<u8>,
    pub width: u32,
    pub height: u32,
}

/// Why a photo could not be rendered, as plain values.
pub enum RenderFailure {
    Template(Seq<char>),
    Document(Seq<char>),
    Canvas,
    Encode(Seq<char>),
}

impl View for RenderError {
    type V = RenderFailure;

    open spec fn view(&self) -> RenderFailure {
        match self {
            RenderError::Template(text) => RenderFailure::Template(text@),
            RenderError::Document(text) => RenderFailure::Document(text@),
            RenderError::Canvas => RenderFailure::Canvas,
            RenderError::Encode(text) => RenderFailure::Encode(text@),
        }
    }
}

/// What `parse_template` says of a text that holds more than ordinary text
/// and placeholders.
pub const NOT_PLAIN: &'static str = "the template holds more than text and placeholders";

/// A template that was read. Its text is ordinary text and placeholders.
pub struct PhotoTemplate {
    parsed: liquid::Template,
}

impl PhotoTemplate {
    #[verifier::type_invariant]
    spec fn is_plain(self) -> bool {
        plain_template(template_text(self.parsed))
    }

    /// The text that the template was read from.
    pub closed spec fn text(self) -> Seq<char> {
        template_text(self.parsed)
    }

    /// The template as `liquid` holds it.
    pub closed spec fn parsed(self) -> liquid::Template {
        self.parsed
    }
}

/// The fields that a set of template globals binds, by name. A field bound
/// to text or to a whole number stands here with its value.
pub uninterp spec fn object_fields(globals: liquid::Object) -> Map<Seq<char>, Field>;

/// No field bound.
pub open spec fn no_fields() -> Map<Seq<char>, Field> {
    Map::empty()
}

/// `Object::new` makes an object that binds no field.
pub assume_specification[ liquid::Object::new ]() -> (made: liquid::Object)
    ensures
        object_fields(made) == no_fields(),
;

/// `Object::insert`, with the name as the key, a `KString` of the `kstring`
/// crate, and the value as a scalar: text as a string, a number as an
/// integer. The field is bound to the value, whether or not it was bound
/// before, and every other field stays as it was.
#[verifier::external_body]
fn insert_field(globals: &mut liquid::Object, name: &str, value: FieldValue)
    ensures
        object_fields(*final(globals)) == object_fields(*old(globals)).insert(name@, value@),
{
    let value = match value {
        FieldValue::Text(text) => liquid::model::Value::scalar(text),
        FieldValue::Number(number) => liquid::model::Value::scalar(i64::from(number)),
    };
    globals.insert(kstring::KString::from_ref(name), value);
}

/// Whether `liquid`, with its standard library of tags and filters, reads
/// `text` as a template.
pub uninterp spec fn template_parses(text: Seq<char>) -> bool;

/// The text that a template was read from.
pub uninterp spec fn template_text(template: liquid::Template) -> Seq<char>;

/// What `liquid` renders a template to with a set of globals: the text, or
/// its error.
pub uninterp spec fn rendered_text(template: liquid::Template, globals: liquid::Object) -> Result<
    Seq<char>,
    liquid::Error,
>;

/// The `Display` text of an error of `liquid`.
pub uninterp spec fn liquid_error_words(err: liquid::Error) -> Seq<char>;

/// `Parser::parse`, on a parser that `ParserBuilder::with_stdlib` has built.
/// The parser reads nothing but the text, so whether a template comes back
/// goes by the text alone. The text is to be ordinary text and placeholders:
/// the parser does not return on every number written in a template.
#[verifier::external_body]
fn parse_liquid(text: &str) -> (parsed: Result<liquid::Template, liquid::Error>)
    requires
        plain_template(text@),
    ensures
        parsed is Ok == template_parses(text@),
        parsed matches Ok(template) ==> template_text(template) == text@,
{
    liquid::ParserBuilder::with_stdlib().build()?.parse(text)
}

/// `Template::render`. The template is to be one of ordinary text and
/// placeholders: the filters of the template language do not return on every
/// number, and a value may be read as the time of day. Such a template puts
/// the text of each field in its place, so what comes back goes by the
/// template and the globals alone.
#[verifier::external_body]
fn render_liquid(template: &liquid::Template, globals: &liquid::Object) -> (rendered: Result<
    String,
    liquid::Error,
>)
    requires
        plain_template(template_text(*template)),
    ensures
        rendered matches Ok(svg) ==> (rendered_text(*template, *globals) matches Ok(named)
            && named == svg@),
        rendered matches Err(err) ==> (rendered_text(*template, *globals) matches Err(named)
            && named == err),
{
    template.render(globals)
}

/// The `Display` text of a `liquid::Error`.
#[verifier::external_body]
fn liquid_error_text(err: &liquid::Error) -> (text: String)
    ensures
        text@ == liquid_error_words(*err),
{
    format!("{}", err)
}

/// `Tree::from_str`. It reads the image files that the document refers to.
/// Nothing is claimed of what it returns.
#[verifier::external_body]
fn parse_svg<'a>(svg: &str, options: &usvg::Options<'a>) -> (parsed: Result<
    usvg::Tree,
    usvg::Error,
>) {
    usvg::Tree::from_str(svg, options)
}

/// The `Display` text of a `usvg::Error`.
#[verifier::external_body]
fn svg_error_text(err: &usvg::Error) -> (text: String) {
    format!("{}", err)
}

/// `Pixmap::new` allocates a pixel buffer. It makes none where a side is zero.
pub assume_specification[ tiny_skia::Pixmap::new ](width: u32, height: u32) -> (pixmap: Option<
    tiny_skia::Pixmap,
>)
    ensures
        width == 0 || height == 0 ==> pixmap is None,
;

/// `resvg::render` with no transform, onto the whole of the pixel buffer.
/// Nothing is claimed of the pixels.
#[verifier::external_body]
fn rasterize(tree: &usvg::Tree, pixmap: &mut tiny_skia::Pixmap) {
    resvg::render(tree, tiny_skia::Transform::default(), &mut pixmap.as_mut());
}

/// `Pixmap::encode_png`, its error given as text. Nothing is claimed of the
/// bytes.
#[verifier::external_body]
fn pixmap_png(pixmap: &tiny_skia::Pixmap) -> (encoded: Result<Vec<u8>, String>) {
    match pixmap.encode_png() {
        Ok(bytes) => Ok(bytes),
        Err(err) => Err(format!("{}", err)),
    }
}

/// The fields of the template and what each is bound to, for a scaled photo
/// in the file `raster_path`, laid out as `g`, with the metadata `info`: the
/// photo's file and size, the canvas, the anchors of the text, the calendar
/// date, and the three captions with their ampersands escaped.
pub open spec fn globals_of(raster_path: Seq<char>, g: Geometry, info: PhotoInfoText) -> Map<
    Seq<char>,
    Field,
> {
    no_fields().insert("photo"@, Field::Text(raster_path)).insert(
        "photo_width"@,
        Field::Number(g.photo_width),
    ).insert("photo_translate"@, Field::Number(g.photo_translate)).insert(
        "photo_height"@,
        Field::Number(g.photo_height),
    ).insert("border"@, Field::Number(g.border)).insert(
        "image_width"@,
        Field::Number(g.image_width),
    ).insert("image_height"@, Field::Number(g.image_height)).insert(
        "line_1_y"@,
        Field::Number(g.line_1_y),
    ).insert("line_2_y"@, Field::Number(g.line_2_y)).insert(
        "line_3_y"@,
        Field::Number(g.line_3_y),
    ).insert("line_1_x_r"@, Field::Number(g.line_1_x_r)).insert(
        "line_2_x"@,
        Field::Number(g.line_2_x),
    ).insert("date"@, Field::Text(calendar_date(info.date_taken))).insert(
        "text_en"@,
        Field::Text(escaped(info.title.en)),
    ).insert("text_fi"@, Field::Text(escaped(info.title.fi))).insert(
        "text_fr"@,
        Field::Text(escaped(info.title.fr)),
    )
}

/// A number that tells the names of the template's fields apart: the length
/// of the name, and more where two names are of one length.
spec fn name_mark(name: Seq<char>) -> int {
    if name.len() == 11 || name.len() == 12 {
        if name[0] == 'p' {
            1000 + name.len() as int
        } else {
            name.len() as int
        }
    } else if name.len() == 8 {
        if name[7] == 'x' {
            4008
        } else if name[5] == '1' {
            1008
        } else if name[5] == '2' {
            2008
        } else {
            3008
        }
    } else if name.len() == 7 {
        if name[5] == 'e' {
            1007
        } else if name[6] == 'i' {
            2007
        } else {
            3007
        }
    } else {
        name.len() as int
    }
}

/// The fields bound are those of the template and no other, and each is
/// bound to its own value.
pub proof fn lemma_globals_bind_each_field(raster_path: Seq<char>, g: Geometry, info: PhotoInfoText)
    ensures
        ({
            let fields = globals_of(raster_path, g, info);
            &&& fields.dom() == field_names()
            &&& fields["photo"@] == Field::Text(raster_path)
            &&& fields["photo_width"@] == Field::Number(g.photo_width)
            &&& fields["photo_translate"@] == Field::Number(g.photo_translate)
            &&& fields["photo_height"@] == Field::Number(g.photo_height)
            &&& fields["border"@] == Field::Number(g.border)
            &&& fields["image_width"@] == Field::Number(g.image_width)
            &&& fields["image_height"@] == Field::Number(g.image_height)
            &&& fields["line_1_y"@] == Field::Number(g.line_1_y)
            &&& fields["line_2_y"@] == Field::Number(g.line_2_y)
            &&& fields["line_3_y"@] == Field::Number(g.line_3_y)
            &&& fields["line_1_x_r"@] == Field::Number(g.line_1_x_r)
            &&& fields["line_2_x"@] == Field::Number(g.line_2_x)
            &&& fields["date"@] == Field::Text(calendar_date(info.date_taken))
            &&& fields["text_en"@] == Field::Text(escaped(info.title.en))
            &&& fields["text_fi"@] == Field::Text(escaped(info.title.fi))
            &&& fields["text_fr"@] == Field::Text(escaped(info.title.fr))
        }),
{
    reveal_strlit("photo");
    reveal_strlit("photo_width");
    reveal_strlit("photo_translate");
    reveal_strlit("photo_height");
    reveal_strlit("border");
    reveal_strlit("image_width");
    reveal_strlit("image_height");
    reveal_strlit("line_1_y");
    reveal_strlit("line_2_y");
    reveal_strlit("line_3_y");
    reveal_strlit("line_1_x_r");
    reveal_strlit("line_2_x");
    reveal_strlit("date");
    reveal_strlit("text_en");
    reveal_strlit("text_fi");
    reveal_strlit("text_fr");
    assert(name_mark("photo"@) == 5);
    assert(name_mark("photo_width"@) == 1011);
    assert(name_mark("photo_translate"@) == 15);
    assert(name_mark("photo_height"@) == 1012);
    assert(name_mark("border"@) == 6);
    assert(name_mark("image_width"@) == 11);
    assert(name_mark("image_height"@) == 12);
    assert(name_mark("line_1_y"@) == 1008);
    assert(name_mark("line_2_y"@) == 2008);
    assert(name_mark("line_3_y"@) == 3008);
    assert(name_mark("line_1_x_r"@) == 10);
    assert(name_mark("line_2_x"@) == 4008);
    assert(name_mark("date"@) == 4);
    assert(name_mark("text_en"@) == 1007);
    assert(name_mark("text_fi"@) == 2007);
    assert(name_mark("text_fr"@) == 3007);
    assert(globals_of(raster_path, g, info).dom() =~= field_names());
}

/// Binds the fields of the template for one photo.
pub fn template_globals(metadata: &PhotoInfo, raster_path: &str, l: &Layout) -> (globals:
    liquid::Object)
    ensures
        object_fields(globals) == globals_of(raster_path@, l@, metadata@),
{
    let mut globals = liquid::Object::new();
    insert_field(&mut globals, "photo", FieldValue::Text(raster_path.to_owned()));
    insert_field(&mut globals, "photo_width", FieldValue::Number(l.photo_width));
    insert_field(&mut globals, "photo_translate", FieldValue::Number(l.photo_translate));
    insert_field(&mut globals, "photo_height", FieldValue::Number(l.photo_height));
    insert_field(&mut globals, "border", FieldValue::Number(l.border));
    insert_field(&mut globals, "image_width", FieldValue::Number(l.image_width));
    insert_field(&mut globals, "image_height", FieldValue::Number(l.image_height));
    insert_field(&mut globals, "line_1_y", FieldValue::Number(l.line_1_y));
    insert_field(&mut globals, "line_2_y", FieldValue::Number(l.line_2_y));
    insert_field(&mut globals, "line_3_y", FieldValue::Number(l.line_3_y));
    insert_field(&mut globals, "line_1_x_r", FieldValue::Number(l.line_1_x_r));
    insert_field(&mut globals, "line_2_x", FieldValue::Number(l.line_2_x));
    insert_field(&mut globals, "date", FieldValue::Text(date_part(metadata.date_taken.as_str())));
    insert_field(
        &mut globals,
        "text_en",
        FieldValue::Text(sanitize_text(metadata.title.en.as_str())),
    );
    insert_field(
        &mut globals,
        "text_fi",
        FieldValue::Text(sanitize_text(metadata.title.fi.as_str())),
    );
    insert_field(
        &mut globals,
        "text_fr",
        FieldValue::Text(sanitize_text(metadata.title.fr.as_str())),
    );
    globals
}

/// Reads the template. It is read once and used for every photo.
///
/// A template comes back exactly where the text is ordinary text and
/// placeholders and `liquid` reads it as a template. A text that holds more
/// is refused in the words of `NOT_PLAIN`.
pub fn parse_template(text: &str) -> (parsed: Result<PhotoTemplate, RenderError>)
    ensures
        parsed is Ok == (plain_template(text@) && template_parses(text@)),
        parsed matches Ok(template) ==> template.text() == text@,
        parsed matches Err(e) ==> e is Template,
        !plain_template(text@) ==> (parsed matches Err(e) && e@ == RenderFailure::Template(
            NOT_PLAIN@,
        )),
{
    if !is_plain_template(text) {
        return Err(RenderError::Template(NOT_PLAIN.to_owned()));
    }
    match parse_liquid(text) {
        Ok(parsed) => Ok(PhotoTemplate { parsed }),
        Err(err) => Err(RenderError::Template(liquid_error_text(&err))),
    }
}

/// Takes what the rendering of the template came to: the text is the vector
/// document, and the renderer's words make an error of the template.
pub fn document_from(rendered: Result<String, String>) -> (document: Result<String, RenderError>)
    ensures
        document == match rendered {
            Ok(svg) => Ok(svg),
            Err(text) => Err(RenderError::Template(text)),
        },
{
    match rendered {
        Ok(svg) => Ok(svg),
        Err(text) => Err(RenderError::Template(text)),
    }
}

/// Takes what the encoding of the drawn canvas came to: the bytes make the
/// artifact of the canvas's size, and the encoder's words make an error.
pub fn artifact_from(encoded: Result<Vec<u8>, String>, width: u32, height: u32) -> (made: Result<
    RenderedArtifact,
    RenderError,
>)
    ensures
        made == match encoded {
            Ok(png) => Ok(RenderedArtifact { png, width, height }),
            Err(text) => Err(RenderError::Encode(text)),
        },
{
    match encoded {
        Ok(png) => Ok(RenderedArtifact { png, width, height }),
        Err(text) => Err(RenderError::Encode(text)),
    }
}

/// The vector document that a rendering came to: the text, or the
/// renderer's words as an error of the template.
pub open spec fn document_of(rendered: Result<Seq<char>, liquid::Error>) -> Result<
    Seq<char>,
    RenderFailure,
> {
    match rendered {
        Ok(svg) => Ok(svg),
        Err(err) => Err(RenderFailure::Template(liquid_error_words(err))),
    }
}

/// A vector document or an error, as plain values.
pub open spec fn document_outcome(rendered: Result<String, RenderError>) -> Result<
    Seq<char>,
    RenderFailure,
> {
    match rendered {
        Ok(svg) => Ok(svg@),
        Err(e) => Err(e@),
    }
}

/// Fills in the template for one photo, laid out as `l`: the vector document.
///
/// The document is what `liquid` renders the template to with globals that
/// bind the fields that `globals_of` lists; its error comes back in its own
/// words.
pub fn render_document(
    template: &PhotoTemplate,
    metadata: &PhotoInfo,
    raster_path: &str,
    l: &Layout,
) -> (rendered: Result<String, RenderError>)
    ensures
        exists|globals: liquid::Object|
            object_fields(globals) == globals_of(raster_path@, l@, metadata@) && document_outcome(
                rendered,
            ) == document_of(#[trigger] rendered_text(template.parsed(), globals)),
        rendered matches Err(e) ==> e is Template,
{
    proof {
        use_type_invariant(template);
    }
    let globals = template_globals(metadata, raster_path, l);
    let rendered = match render_liquid(&template.parsed, &globals) {
        Ok(svg) => Ok(svg),
        Err(err) => Err(liquid_error_text(&err)),
    };
    let document = document_from(rendered);
    proof {
        assert(object_fields(globals) == globals_of(raster_path@, l@, metadata@)
            && document_outcome(document) == document_of(
            rendered_text(template.parsed(), globals),
        ));
    }
    document
}

/// Draws a vector document on a canvas of `width` by `height` pixels.
///
/// Whether the text is a vector document, and what is drawn, is for `usvg`,
/// `resvg` and `tiny-skia` to say. An artifact that comes back has the size
/// that was asked for, and none comes back for a canvas without pixels.
pub fn rasterize_document<'a>(svg: &str, options: &usvg::Options<'a>, width: u32, height: u32) -> (made:
    Result<RenderedArtifact, RenderError>)
    ensures
        made matches Ok(artifact) ==> artifact.width == width && artifact.height == height
            && width > 0 && height > 0,
        made matches Err(e) ==> !(e is Template),
{
    let tree = match parse_svg(svg, options) {
        Ok(tree) => tree,
        Err(err) => {
            return Err(RenderError::Document(svg_error_text(&err)));
        },
    };
    let mut pixmap = match tiny_skia::Pixmap::new(width, height) {
        Some(pixmap) => pixmap,
        None => {
            return Err(RenderError::Canvas);
        },
    };
    rasterize(&tree, &mut pixmap);
    artifact_from(pixmap_png(&pixmap), width, height)
}

/// Renders one photo: lays out the canvas for the scaled photo, fills in the
/// template, reads the result as a vector document and draws it.
///
/// The template is rendered with globals that bind the fields that
/// `globals_of` lists for the photo's layout. Where `liquid` does not render
/// it, its error comes back in its own words, and no other error is one of
/// the template. Whether the rendered text is a vector document and what is
/// drawn is for the outside crates to say: the document is read with the
/// image file that it names. An artifact that comes back has the size of the
/// canvas.
pub fn generate<'a>(
    template: &PhotoTemplate,
    options: &usvg::Options<'a>,
    metadata: &PhotoInfo,
    png: &NormalizedImage,
) -> (made: Result<RenderedArtifact, RenderError>)
    requires
        png.wf(),
    ensures
        made matches Ok(artifact) ==> artifact.width == canvas_width(
            png.width as int,
            IMAGE_BORDER as int,
        ) && artifact.height == canvas_height(
            png.height as int,
            IMAGE_BORDER as int,
            LINE_HEIGHT as int,
        ),
        exists|globals: liquid::Object|
            object_fields(globals) == globals_of(
                png.raster_path@,
                geometry(
                    png.width as int,
                    png.height as int,
                    IMAGE_BORDER as int,
                    LINE_HEIGHT as int,
                ),
                metadata@,
            ) && match #[trigger] rendered_text(template.parsed(), globals) {
                Ok(_) => !(made matches Err(RenderError::Template(_))),
                Err(err) => (made matches Err(e) && e@ == RenderFailure::Template(
                    liquid_error_words(err),
                )),
            },
{
    let l = layout(png.width, png.height, IMAGE_BORDER, LINE_HEIGHT);
    match render_document(template, metadata, png.raster_path.as_str(), &l) {
        Ok(svg) => rasterize_document(svg.as_str(), options, l.image_width, l.image_height),
        Err(err) => Err(err),
    }
}

} // verus!
