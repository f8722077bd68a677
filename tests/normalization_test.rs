use file_date_fixer::date::extract_date_from_normalized_file_name;
use file_date_fixer::normalization::{is_normalized_date_pattern_match, normalize_file_name};

#[test]
fn test_normalize_file_name() {
    assert_eq!(
        normalize_file_name("IMG-20240101-test.jpg"),
        "IMG_20240101_test.jpg"
    );
    assert_eq!(normalize_file_name("no_dashes_here"), "no_dashes_here");
}

#[test]
fn normalize_handles_empty_and_unicode_names() {
    assert_eq!(normalize_file_name(""), "");
    assert_eq!(normalize_file_name("--"), "__");
    assert_eq!(normalize_file_name("été-2024"), "été_2024");
}

#[test]
fn test_is_normalized_date_pattern_match() {
    assert!(is_normalized_date_pattern_match("IMG_20240101_sample.jpg"));
    assert!(is_normalized_date_pattern_match(
        "PANO_20221111_panorama.png"
    ));

    assert!(!is_normalized_date_pattern_match("VID_20231231.mp4")); // No underscore after date
    assert!(!is_normalized_date_pattern_match("image_20240101.jpg")); // Wrong prefix
    assert!(!is_normalized_date_pattern_match("IMG-20240101.jpg")); // Hyphen instead of underscore
    assert!(!is_normalized_date_pattern_match("IMG_2024010A_test.png")); // Invalid date
}

#[test]
fn pattern_is_anchored_at_the_start() {
    assert!(!is_normalized_date_pattern_match("xIMG_20240101_a.jpg"));
    assert!(is_normalized_date_pattern_match("VID_20240101_"));
    assert!(!is_normalized_date_pattern_match("IMG_202401011_a.jpg"));
}

#[test]
fn extraction_ignores_separator_mix() {
    for raw in [
        "IMG-20240101-a.jpg",
        "IMG_20240101-a.jpg",
        "IMG-20240101_a.jpg",
        "IMG_20240101_a.jpg",
    ] {
        let n = normalize_file_name(raw);
        assert!(is_normalized_date_pattern_match(&n));
        assert_eq!(extract_date_from_normalized_file_name(&n), "20240101");
    }
    let n = normalize_file_name("PANO-19991231-");
    assert_eq!(extract_date_from_normalized_file_name(&n), "19991231");
}
