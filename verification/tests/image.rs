use axolotl_client_api::errors::ApiError;
use axolotl_client_api::image::{base_url, image_url, oembed, raw_url, OEmbed, OEmbedQuery, PngInfo, DEFAULT_BASE_URL};

fn png(width: [u8; 4], height: [u8; 4]) -> Vec<u8> {
    let mut bytes = vec![0x89, 0x50, 0x4e, 0x47, 0x0d, 0x0a, 0x1a, 0x0a, 0, 0, 0, 13, b'I', b'H', b'D', b'R'];
    bytes.extend_from_slice(&width);
    bytes.extend_from_slice(&height);
    bytes.extend_from_slice(&[8, 6, 0, 0, 0]);
    bytes
}

#[test]
fn png_header_gives_width_and_height() {
    assert_eq!(
        PngInfo::create(&png([0, 0, 7, 128], [0, 0, 4, 56])),
        Some(PngInfo { width: 1920, height: 1080 })
    );
    assert_eq!(
        PngInfo::create(&png([0x7f, 0xff, 0xff, 0xff], [0, 0, 0, 0])),
        Some(PngInfo { width: i32::MAX, height: 0 })
    );
    assert_eq!(
        PngInfo::create(&png([0xff, 0xff, 0xff, 0xff], [0x80, 0, 0, 0])),
        Some(PngInfo { width: -1, height: i32::MIN })
    );
    assert_eq!(PngInfo::create(&png([1, 2, 3, 4], [5, 6, 7, 8])[..24]), Some(PngInfo { width: 0x01020304, height: 0x05060708 }));
}

#[test]
fn other_files_are_no_png() {
    assert_eq!(PngInfo::create(&[]), None);
    assert_eq!(PngInfo::create(&png([0, 0, 0, 1], [0, 0, 0, 1])[..23]), None);
    let mut wrong_signature = png([0, 0, 0, 1], [0, 0, 0, 1]);
    wrong_signature[7] = 0x0b;
    assert_eq!(PngInfo::create(&wrong_signature), None);
    let mut wrong_size = png([0, 0, 0, 1], [0, 0, 0, 1]);
    wrong_size[11] = 14;
    assert_eq!(PngInfo::create(&wrong_size), None);
    let mut wrong_type = png([0, 0, 0, 1], [0, 0, 0, 1]);
    wrong_type[12] = b'i';
    assert_eq!(PngInfo::create(&wrong_type), None);
    assert_eq!(PngInfo::create(b"GIF89a__________________________"), None);
}

#[test]
fn base_url_ends_with_a_slash() {
    assert_eq!(base_url(None), "https://api.axolotlclient.com/v1/");
    assert_eq!(DEFAULT_BASE_URL, "https://api.axolotlclient.com/v1/");
    assert_eq!(base_url(Some("https://example.org")), "https://example.org/");
    assert_eq!(base_url(Some("https://example.org/")), "https://example.org/");
    assert_eq!(base_url(Some("")), "/");
}

#[test]
fn picture_addresses_are_built_from_the_base() {
    assert_eq!(image_url("https://example.org/", "42"), "https://example.org/image/42");
    assert_eq!(raw_url("https://example.org/image/42"), "https://example.org/image/42/raw");
}

#[test]
fn oembed_describes_a_photo() {
    let embed = OEmbed::create("shot.png".to_string(), "https://x/1/raw".to_string(), PngInfo { width: 3, height: 4 });
    assert_eq!(embed.version, "1.0");
    assert_eq!(embed._type, "photo");
    assert_eq!(embed.title, "shot.png | AxolotlClient");
    assert_eq!(embed.url, "https://x/1/raw");
    assert_eq!((embed.width, embed.height), (3, 4));
    assert_eq!(embed.provider_name, "AxolotlClient");
    assert_eq!(embed.provider_url, "https://axolotlclient.com");
}

#[test]
fn oembed_is_offered_as_json_for_png_files() {
    let json = OEmbedQuery { format: "json".to_string() };
    let xml = OEmbedQuery { format: "xml".to_string() };
    let file = png([0, 0, 0, 16], [0, 0, 0, 9]);
    let embed = oembed(&json, "shot.png".to_string(), &file, Some("https://example.org"), "77").unwrap();
    assert_eq!(embed.url, "https://example.org/77/raw");
    assert_eq!(embed.title, "shot.png | AxolotlClient");
    assert_eq!((embed.width, embed.height), (16, 9));
    assert_eq!(oembed(&xml, "shot.png".to_string(), &file, None, "77"), Err(ApiError::NotImplemented));
    assert_eq!(oembed(&json, "shot.png".to_string(), b"not a picture", None, "77"), Err(ApiError::BadRequest));
    assert_eq!(oembed(&xml, "shot.png".to_string(), b"not a picture", None, "77"), Err(ApiError::BadRequest));
}
