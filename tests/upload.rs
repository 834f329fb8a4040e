use gog::upload::{check_pfp, judge_pfp, PfpRejection, PFP_BYTES_MAX};

fn jpeg(len: usize) -> Vec<u8> {
    let mut v = vec![0xFF, 0xD8, 0xFF, 0xE0];
    v.resize(len, 0);
    v
}

#[test]
fn jpeg_within_limit_is_accepted() {
    assert!(check_pfp(&jpeg(100)).is_ok());
    assert!(check_pfp(&jpeg(PFP_BYTES_MAX)).is_ok());
}

#[test]
fn oversized_picture_is_refused() {
    assert!(matches!(check_pfp(&jpeg(PFP_BYTES_MAX + 1)), Err(PfpRejection::TooLarge)));
}

#[test]
fn png_is_refused() {
    let png = vec![0x89, 0x50, 0x4E, 0x47, 0x0D, 0x0A, 0x1A, 0x0A, 0, 0];
    assert!(matches!(check_pfp(&png), Err(PfpRejection::NotJpeg)));
}

#[test]
fn unknown_bytes_are_refused() {
    assert!(matches!(check_pfp(&[1, 2, 3, 4]), Err(PfpRejection::UnknownType)));
    assert!(matches!(check_pfp(&[]), Err(PfpRejection::UnknownType)));
}

#[test]
fn verdict_from_size_and_type() {
    assert!(judge_pfp(10, Some("image/jpg".to_string())).is_ok());
    assert!(judge_pfp(10, Some("image/jpeg".to_string())).is_ok());
    assert!(matches!(judge_pfp(10, Some("image/gif".to_string())), Err(PfpRejection::NotJpeg)));
    assert!(matches!(judge_pfp(10, None), Err(PfpRejection::UnknownType)));
    assert!(matches!(judge_pfp(PFP_BYTES_MAX + 1, Some("image/jpeg".to_string())), Err(PfpRejection::TooLarge)));
    assert_eq!(PfpRejection::TooLarge.reason(), "uploaded file exceeded allowed size");
    assert_eq!(PfpRejection::NotJpeg.reason(), "uploaded file was not a valid jpg/jpeg file");
}
