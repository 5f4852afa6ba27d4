use std::io::Cursor;

use http::StatusCode;
use http_cat::Error;
use http_cat::HttpCat;
use image::DynamicImage;
use image::ImageFormat;
use rocket::http::Status;

const ALL_CODES: [u16; 74] = [
    100, 101, 102, 103, 200, 201, 202, 203, 204, 205, 206, 207, 208, 226, 300, 301, 302, 303, 304,
    305, 306, 307, 400, 401, 402, 403, 404, 405, 406, 407, 408, 409, 410, 411, 412, 413, 414, 415,
    416, 417, 418, 420, 421, 422, 423, 424, 425, 426, 428, 429, 431, 444, 450, 451, 497, 498, 499,
    500, 501, 502, 503, 504, 506, 507, 508, 509, 510, 511, 521, 522, 523, 525, 530, 599,
];

fn tiny_jpeg() -> Vec<u8> {
    let image = DynamicImage::new_rgb8(1, 1);
    let mut bytes: Vec<u8> = Vec::new();
    image
        .write_to(&mut Cursor::new(&mut bytes), ImageFormat::Jpeg)
        .unwrap();
    bytes
}

#[test]
fn status_to_code() {
    assert_eq!(HttpCat::ImATeapot.to_code(), 418);
}

#[test]
fn dep_http() {
    assert_eq!(
        HttpCat::from_http_status(StatusCode::IM_A_TEAPOT).unwrap(),
        HttpCat::ImATeapot,
    );
}

#[test]
fn dep_rocket() {
    assert_eq!(
        HttpCat::from_rocket_status(Status::ImATeapot).unwrap(),
        HttpCat::ImATeapot,
    );
}

#[test]
fn code_to_status() {
    assert_eq!(HttpCat::try_from(418), Ok(HttpCat::ImATeapot));
    assert_eq!(HttpCat::try_from(100), Ok(HttpCat::Continue));
    assert_eq!(HttpCat::try_from(200), Ok(HttpCat::OK));
    assert_eq!(HttpCat::try_from(599), Ok(HttpCat::NetworkConnectTimeoutError));
}

#[test]
fn round_trip_every_code() {
    for &code in ALL_CODES.iter() {
        let entry = HttpCat::try_from(code).unwrap();
        assert_eq!(entry.to_code(), code);
    }
}

#[test]
fn distinct_entries_have_distinct_codes() {
    for (i, &a) in ALL_CODES.iter().enumerate() {
        for &b in ALL_CODES.iter().skip(i + 1) {
            let left = HttpCat::try_from(a).unwrap();
            let right = HttpCat::try_from(b).unwrap();
            assert_ne!(left, right);
            assert_ne!(left.to_code(), right.to_code());
        }
    }
}

#[test]
fn unknown_code_999() {
    assert_eq!(HttpCat::try_from(999), Err(Error::UnknownStatusCode(999)));
}

#[test]
fn unknown_codes_are_never_coerced() {
    for code in [0u16, 1, 99, 104, 199, 209, 225, 299, 308, 399, 419, 427, 430, 445, 505, 512,
        520, 524, 531, 598, 600, 1000, u16::MAX]
    {
        assert_eq!(HttpCat::try_from(code), Err(Error::UnknownStatusCode(code)));
    }
}

#[test]
fn unknown_http_status() {
    let status = StatusCode::from_u16(599).unwrap();
    assert_eq!(
        HttpCat::from_http_status(status).unwrap(),
        HttpCat::NetworkConnectTimeoutError,
    );
    let unknown = StatusCode::from_u16(598).unwrap();
    assert_eq!(
        HttpCat::from_http_status(unknown),
        Err(Error::UnknownStatusCode(598)),
    );
}

#[test]
fn unknown_rocket_status() {
    let unknown = Status::new(419);
    assert_eq!(
        HttpCat::from_rocket_status(unknown),
        Err(Error::UnknownStatusCode(419)),
    );
}

#[test]
fn request_url_interpolates_code() {
    assert_eq!(HttpCat::ImATeapot.request_url(), "https://http.cat/418");
    assert_eq!(HttpCat::Continue.request_url(), "https://http.cat/100");
    assert_eq!(
        HttpCat::NetworkConnectTimeoutError.request_url(),
        "https://http.cat/599",
    );
}

#[test]
fn decode_accepts_a_jpeg_body() {
    let bytes = tiny_jpeg();
    let decoded = http_cat::decode_image(&bytes).unwrap();
    assert_eq!(decoded.width(), 1);
    assert_eq!(decoded.height(), 1);
}

#[test]
fn decode_is_deterministic() {
    // The decoded bitmap is a function of the bytes alone: the same body
    // always yields the identical image.
    let bytes = tiny_jpeg();
    let first = http_cat::decode_image(&bytes).unwrap();
    let second = http_cat::decode_image(&bytes).unwrap();
    assert_eq!(first, second);
}

#[test]
fn decode_rejects_garbage() {
    let result = http_cat::decode_image(&vec![0x00, 0x01, 0x02, 0x03]);
    assert!(matches!(result, Err(Error::Decode(_))));
}

#[test]
fn decode_forces_jpeg_format() {
    // Bytes opening with the PNG signature are still interpreted as JPEG and
    // refused: the format is fixed by contract with the image host, never
    // auto-detected.
    let png_signature = vec![0x89, 0x50, 0x4E, 0x47, 0x0D, 0x0A, 0x1A, 0x0A];
    assert!(matches!(
        http_cat::decode_image(&png_signature),
        Err(Error::Decode(_)),
    ));
}

#[test]
fn transport_failure_is_surfaced() {
    let outcome: Result<Vec<u8>, String> = Err("connection refused".to_string());
    assert_eq!(
        http_cat::process_response(outcome),
        Err(Error::Transport("connection refused".to_string())),
    );
}

#[test]
fn received_body_is_decoded() {
    let good = http_cat::process_response(Ok(tiny_jpeg())).unwrap();
    assert_eq!(good.width(), 1);
    let bad = http_cat::process_response(Ok(vec![0xFF, 0xD8, 0x00]));
    assert!(matches!(bad, Err(Error::Decode(_))));
}
