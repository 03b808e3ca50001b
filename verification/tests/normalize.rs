use social_preview::normalize::{
    get_png, is_normalized_size, is_scaled_to_box, scale_decoded, to_small_png, NormalizeError, NormalizedImage, SourceFormat,
    Thumbnail, PHOTO_BOX_SIZE, RASTER_FILE_NAME,
};
use std::io::Cursor;

fn encoded(width: u32, height: u32, format: image::ImageFormat) -> Vec<u8> {
    let img = image::RgbImage::from_pixel(width, height, image::Rgb([200, 30, 40]));
    let mut out = Cursor::new(Vec::new());
    img.write_to(&mut out, format).unwrap();
    out.into_inner()
}

fn tiff_of(width: u32, height: u32) -> Vec<u8> {
    encoded(width, height, image::ImageFormat::Tiff)
}

#[test]
fn landscape_is_scaled_to_the_box() {
    let thumb = to_small_png(&tiff_of(400, 300), SourceFormat::Tiff).unwrap();
    assert_eq!((thumb.width, thumb.height), (900, 675));
    assert_eq!((thumb.source_width, thumb.source_height), (400, 300));
}

#[test]
fn large_scan_is_scaled_down() {
    let thumb = to_small_png(&tiff_of(4000, 3000), SourceFormat::Tiff).unwrap();
    assert_eq!((thumb.width, thumb.height), (900, 675));
    assert_eq!((thumb.source_width, thumb.source_height), (4000, 3000));
}

#[test]
fn portrait_and_square_fit_the_box() {
    let portrait = to_small_png(&tiff_of(1200, 1600), SourceFormat::Tiff).unwrap();
    assert_eq!((portrait.width, portrait.height), (675, 900));
    let square = to_small_png(&tiff_of(1000, 1000), SourceFormat::Tiff).unwrap();
    assert_eq!((square.width, square.height), (900, 900));
}

#[test]
fn aspect_ratio_is_kept_within_a_pixel() {
    for (w, h) in [(1000u32, 333u32), (1234, 77), (901, 900), (3, 2000), (2000, 1), (1, 1)] {
        let thumb = to_small_png(&tiff_of(w, h), SourceFormat::Tiff).unwrap();
        assert_eq!(thumb.width.max(thumb.height), PHOTO_BOX_SIZE);
        let cross = (thumb.width as i64) * (h as i64) - (thumb.height as i64) * (w as i64);
        assert!(cross.abs() < (w + h) as i64);
        assert!(thumb.width >= 1 && thumb.height >= 1);
    }
}

#[test]
fn thumbnail_is_an_rgb_png_of_the_stated_size() {
    let thumb = to_small_png(&tiff_of(640, 480), SourceFormat::Tiff).unwrap();
    assert_eq!(image::guess_format(&thumb.png).unwrap(), image::ImageFormat::Png);
    let decoded = image::load_from_memory(&thumb.png).unwrap();
    assert_eq!((decoded.width(), decoded.height()), (thumb.width, thumb.height));
    assert_eq!(decoded.color(), image::ColorType::Rgb8);
    assert_eq!(decoded.to_rgb8().get_pixel(450, 300), &image::Rgb([200, 30, 40]));
}

#[test]
fn fallback_photo_is_read_as_jpeg() {
    let jpeg = encoded(800, 600, image::ImageFormat::Jpeg);
    let thumb = to_small_png(&jpeg, SourceFormat::Jpeg).unwrap();
    assert_eq!((thumb.width, thumb.height), (900, 675));
}

#[test]
fn bytes_that_are_no_image_fail_to_decode() {
    assert!(matches!(
        to_small_png(b"not an image", SourceFormat::Tiff),
        Err(NormalizeError::Decode(_))
    ));
    assert!(matches!(to_small_png(&[], SourceFormat::Jpeg), Err(NormalizeError::Decode(_))));
}

#[test]
fn source_is_read_in_the_format_of_its_name() {
    let png = encoded(80, 60, image::ImageFormat::Png);
    assert!(matches!(to_small_png(&png, SourceFormat::Tiff), Err(NormalizeError::Decode(_))));
    let jpeg = encoded(80, 60, image::ImageFormat::Jpeg);
    assert!(matches!(to_small_png(&jpeg, SourceFormat::Tiff), Err(NormalizeError::Decode(_))));
}

#[test]
fn format_goes_by_the_file_name() {
    assert_eq!(SourceFormat::of_file("scan.tif"), SourceFormat::Tiff);
    assert_eq!(SourceFormat::of_file("photo.jpg"), SourceFormat::Jpeg);
    assert_eq!(SourceFormat::of_file(".tif"), SourceFormat::Jpeg);
    assert_eq!(SourceFormat::of_file("scan.TIF"), SourceFormat::Jpeg);
}

#[test]
fn scaled_size_is_measured_against_the_source() {
    assert!(is_scaled_to_box(4000, 3000, 900, 675, 900));
    assert!(!is_scaled_to_box(4000, 3000, 900, 674, 900));
    assert!(!is_scaled_to_box(4000, 3000, 900, 676, 900));
    assert!(!is_scaled_to_box(4000, 3000, 899, 675, 900));
    assert!(!is_scaled_to_box(4000, 3000, 901, 675, 900));
    assert!(is_scaled_to_box(1000, 333, 900, 300, 900));
    assert!(is_scaled_to_box(1000, 333, 900, 299, 900));
    assert!(!is_scaled_to_box(1000, 333, 900, 301, 900));
    assert!(!is_scaled_to_box(1000, 333, 900, 298, 900));
    assert!(is_scaled_to_box(2000, 1, 900, 1, 900));
    assert!(!is_scaled_to_box(2000, 1, 900, 0, 900));
    assert!(!is_scaled_to_box(0, 10, 900, 900, 900));
    assert!(!is_scaled_to_box(10, 0, 900, 900, 900));
    assert!(is_scaled_to_box(100, 50, 900, 450, 900));
    assert!(!is_scaled_to_box(100, 50, 100, 50, 900));
    assert!(is_scaled_to_box(u32::MAX, u32::MAX, u32::MAX, u32::MAX, u32::MAX));
    assert!(!is_scaled_to_box(u32::MAX, u32::MAX, u32::MAX - 1, u32::MAX, u32::MAX));
}

#[test]
fn thumbnail_of_another_size_is_refused() {
    let made = Thumbnail::measured(vec![1, 2, 3], 4000, 3000, 900, 675);
    assert_eq!(
        made,
        Ok(Thumbnail {
            png: vec![1, 2, 3],
            width: 900,
            height: 675,
            source_width: 4000,
            source_height: 3000
        })
    );
    assert_eq!(Thumbnail::measured(vec![1], 4000, 3000, 800, 600), Err(NormalizeError::Resize));
    assert_eq!(Thumbnail::measured(vec![1], 4000, 3000, 4000, 3000), Err(NormalizeError::Resize));
    assert_eq!(Thumbnail::measured(vec![1], 0, 0, 1, 1), Err(NormalizeError::Resize));
    assert_eq!(Thumbnail::measured(vec![1], 100, 50, 101, 50), Err(NormalizeError::Resize));
}

#[test]
fn source_that_fits_the_box_may_stay_as_it_is() {
    assert!(is_normalized_size(100, 50, 100, 50, 900));
    assert!(is_normalized_size(100, 50, 900, 450, 900));
    assert!(is_normalized_size(900, 900, 900, 900, 900));
    assert!(!is_normalized_size(100, 50, 200, 100, 900));
    assert!(!is_normalized_size(901, 50, 901, 50, 900));
    assert!(!is_normalized_size(0, 0, 0, 0, 900));
    let kept = Thumbnail::measured(vec![7], 100, 50, 100, 50).unwrap();
    assert_eq!((kept.width, kept.height), (100, 50));
}

#[test]
fn normalized_image_fits_the_box() {
    assert_eq!(
        NormalizedImage::new("t.png".to_string(), 900, 1),
        Some(NormalizedImage { raster_path: "t.png".to_string(), width: 900, height: 1 })
    );
    assert_eq!(NormalizedImage::new("t.png".to_string(), 901, 1), None);
    assert_eq!(NormalizedImage::new("t.png".to_string(), 1, 901), None);
    assert_eq!(NormalizedImage::new("t.png".to_string(), 0, 5), None);
    assert_eq!(NormalizedImage::new("t.png".to_string(), 5, 0), None);
}

#[test]
fn normalized_image_names_its_temporary_file() {
    let path = format!("/tmp/run/{}", RASTER_FILE_NAME);
    let (image, bytes) = get_png(&tiff_of(400, 300), SourceFormat::Tiff, path).unwrap();
    assert_eq!(
        image,
        NormalizedImage { raster_path: "/tmp/run/tmp.png".to_string(), width: 900, height: 675 }
    );
    assert_eq!(bytes, to_small_png(&tiff_of(400, 300), SourceFormat::Tiff).unwrap().png);
    assert!(matches!(
        get_png(b"junk", SourceFormat::Tiff, "x".to_string()),
        Err(NormalizeError::Decode(_))
    ));
}

#[test]
fn stored_thumbnail_keeps_size_and_bytes() {
    let thumb = Thumbnail::measured(vec![9, 8], 1200, 1600, 675, 900).unwrap();
    let (image, bytes) = thumb.stored_at("a/tmp.png".to_string());
    assert_eq!(
        image,
        NormalizedImage { raster_path: "a/tmp.png".to_string(), width: 675, height: 900 }
    );
    assert_eq!(bytes, vec![9, 8]);
}

#[test]
fn encoder_answer_becomes_thumbnail_or_error() {
    assert_eq!(
        Thumbnail::encoded(Ok(vec![1, 2]), 4000, 3000, 900, 675),
        Ok(Thumbnail {
            png: vec![1, 2],
            width: 900,
            height: 675,
            source_width: 4000,
            source_height: 3000
        })
    );
    assert_eq!(
        Thumbnail::encoded(Ok(vec![1, 2]), 4000, 3000, 900, 600),
        Err(NormalizeError::Resize)
    );
    assert_eq!(
        Thumbnail::encoded(Err("no room".to_string()), 4000, 3000, 900, 675),
        Err(NormalizeError::Encode("no room".to_string()))
    );
    assert_eq!(
        Thumbnail::encoded(Err("no room".to_string()), 4000, 3000, 1, 1),
        Err(NormalizeError::Encode("no room".to_string()))
    );
}

#[test]
fn decoded_image_is_scaled_and_encoded() {
    let decoded = image::DynamicImage::new_rgba16(1600, 1200);
    let thumb = scale_decoded(&decoded).unwrap();
    assert_eq!((thumb.width, thumb.height), (900, 675));
    assert_eq!((thumb.source_width, thumb.source_height), (1600, 1200));
    assert_eq!(image::load_from_memory(&thumb.png).unwrap().color(), image::ColorType::Rgb8);
    let empty = image::DynamicImage::new_rgb8(0, 0);
    assert_eq!(scale_decoded(&empty), Err(NormalizeError::Resize));
}

#[test]
fn decoding_decides_between_decode_error_and_the_rest() {
    let good = tiff_of(40, 30);
    assert!(!matches!(to_small_png(&good, SourceFormat::Tiff), Err(NormalizeError::Decode(_))));
    assert!(matches!(to_small_png(&good, SourceFormat::Jpeg), Err(NormalizeError::Decode(_))));
    assert!(matches!(
        get_png(&good, SourceFormat::Jpeg, "t.png".to_string()),
        Err(NormalizeError::Decode(_))
    ));
    assert!(get_png(&good, SourceFormat::Tiff, "t.png".to_string()).is_ok());
}

#[test]
fn error_of_the_thumbnail_is_handed_on_as_it_is() {
    for (bytes, format) in [
        (b"junk".to_vec(), SourceFormat::Tiff),
        (Vec::new(), SourceFormat::Jpeg),
        (tiff_of(40, 30), SourceFormat::Jpeg),
    ] {
        let thumbnail = to_small_png(&bytes, format).unwrap_err();
        let stored = get_png(&bytes, format, "t.png".to_string()).unwrap_err();
        assert_eq!(stored, thumbnail);
    }
}

#[test]
fn stored_photo_has_the_size_and_bytes_of_the_thumbnail() {
    for (w, h) in [(400u32, 300u32), (1200, 1600), (2000, 1), (50, 50)] {
        let source = tiff_of(w, h);
        let thumbnail = to_small_png(&source, SourceFormat::Tiff).unwrap();
        let (image, bytes) = get_png(&source, SourceFormat::Tiff, "t.png".to_string()).unwrap();
        assert_eq!((image.width, image.height), (thumbnail.width, thumbnail.height));
        assert_eq!(bytes, thumbnail.png);
        assert_eq!((thumbnail.source_width, thumbnail.source_height), (w, h));
        assert_eq!(image.raster_path, "t.png");
    }
}

#[test]
fn thumbnail_of_decoded_bytes_is_that_of_the_decoded_image() {
    let source = tiff_of(640, 480);
    let decoded = image::load_from_memory_with_format(&source, image::ImageFormat::Tiff).unwrap();
    assert_eq!(
        to_small_png(&source, SourceFormat::Tiff),
        scale_decoded(&decoded)
    );
    let scaled = image::DynamicImage::ImageRgb8(decoded.thumbnail(900, 900).to_rgb8());
    let thumbnail = scale_decoded(&decoded).unwrap();
    assert_eq!((thumbnail.width, thumbnail.height), (scaled.width(), scaled.height()));
    let mut png = Cursor::new(Vec::new());
    scaled.write_to(&mut png, image::ImageFormat::Png).unwrap();
    assert_eq!(thumbnail.png, png.into_inner());
}
