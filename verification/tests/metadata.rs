use social_preview::metadata::{date_part, get_metadata, PhotoInfo, Title, METADATA_FILE_NAME};

fn info(en: &str, fi: &str, fr: &str) -> PhotoInfo {
    PhotoInfo {
        title: Title { en: en.to_string(), fi: fi.to_string(), fr: fr.to_string() },
        date_taken: "2024-05-01T10:00:00Z".to_string(),
    }
}

#[test]
fn metadata_with_every_caption_is_accepted() {
    let complete = info("Lake", "Järvi", "Lac");
    assert_eq!(get_metadata(complete.clone()), Some(complete));
    let blank = info(" ", " ", " ");
    assert_eq!(get_metadata(blank.clone()), Some(blank));
}

#[test]
fn metadata_with_an_empty_caption_is_rejected() {
    assert_eq!(get_metadata(info("", "Järvi", "Lac")), None);
    assert_eq!(get_metadata(info("Lake", "", "Lac")), None);
    assert_eq!(get_metadata(info("Lake", "Järvi", "")), None);
    assert_eq!(get_metadata(info("", "", "")), None);
}

#[test]
fn date_is_what_stands_before_the_time() {
    assert_eq!(date_part("2024-05-01T10:00:00Z"), "2024-05-01");
    assert_eq!(date_part("2024-05-01"), "2024-05-01");
    assert_eq!(date_part("T10:00"), "");
    assert_eq!(date_part(""), "");
    assert_eq!(date_part("2024T05T01"), "2024");
    assert_eq!(date_part("2024-05-01t10:00"), "2024-05-01t10:00");
}

#[test]
fn date_agrees_with_split() {
    for stamp in ["2024-05-01T10:00:00Z", "TT", "x", "", "été T hiver", "2024-05-01 10:00"] {
        assert_eq!(date_part(stamp), stamp.split('T').next().unwrap());
    }
}

#[test]
fn metadata_file_has_its_name() {
    assert_eq!(METADATA_FILE_NAME, "i.json");
}
