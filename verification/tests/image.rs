use beatrice_lib::image::fits_base64;
use beatrice_lib::image::image_data_url;
use beatrice_lib::image::other_read_image;

#[test]
fn data_url_of_known_bytes() {
    assert_eq!(image_data_url(b"hello"), "data:image/png;base64,aGVsbG8=");
    assert_eq!(other_read_image(b"hello").unwrap(), "data:image/png;base64,aGVsbG8=");
}

#[test]
fn data_url_of_no_bytes_is_the_prefix() {
    assert_eq!(other_read_image(&[]).unwrap(), "data:image/png;base64,");
}

#[test]
fn data_url_pads_and_uses_the_standard_alphabet() {
    assert_eq!(other_read_image(&[0xFF, 0xEC, 0x20, 0x55, 0]).unwrap(), "data:image/png;base64,/+wgVQA=");
    assert_eq!(other_read_image(b"a").unwrap(), "data:image/png;base64,YQ==");
    assert_eq!(other_read_image(b"abc").unwrap(), "data:image/png;base64,YWJj");
}

#[test]
fn base64_length_bound() {
    assert!(fits_base64(0));
    assert!(fits_base64(1 << 20));
    assert!(!fits_base64(usize::MAX));
    let max = isize::MAX as usize;
    // the largest input whose text still fits
    let whole = max / 4;
    assert!(fits_base64(whole * 3));
    assert!(!fits_base64(whole * 3 + 1));
}
