use vstd::prelude::*;
use vstd::string::StringExecFns;

use crate::catalog::Error;
use crate::catalog::HttpCat;

verus! {

/// Declares the `image` crate's decoded-bitmap type so that it can stand in
/// the library's signatures; a value of it is opaque here and is only carried
/// through to the caller.
#[verifier::external_type_specification]
#[verifier::external_body]
pub struct ExDynamicImage(image::DynamicImage);

/// The bitmap that `bytes` decode to as a JPEG image, if they decode at all.
/// Stands for the `image` crate's JPEG decoder, whose outcome depends on the
/// bytes alone.
pub uninterp spec fn jpeg_decode_of(bytes: Seq<u8>) -> Option<image::DynamicImage>;

/// Whether `bytes` decode as a JPEG image.
pub open spec fn jpeg_decodes(bytes: Seq<u8>) -> bool {
    jpeg_decode_of(bytes) is Some
}

/// Relies on image::load_from_memory_with_format: decodes the bytes under the
/// JPEG format, forced regardless of what the bytes look like, and both
/// success and the decoded bitmap are a function of the bytes alone. A
/// failure is carried as its description.
#[verifier::external_body]
fn decode_jpeg(bytes: &Vec<u8>) -> (r: Result<image::DynamicImage, String>)
    ensures
        r is Ok <==> jpeg_decodes(bytes@),
        r matches Ok(img) ==> jpeg_decode_of(bytes@) == Some(img),
{
    image::load_from_memory_with_format(bytes.as_slice(), image::ImageFormat::Jpeg)
        .map_err(|e| e.to_string())
}

/// The decimal digit `d` as a character.
pub open spec fn digit_char(d: int) -> char {
    if d == 0 {
        '0'
    } else if d == 1 {
        '1'
    } else if d == 2 {
        '2'
    } else if d == 3 {
        '3'
    } else if d == 4 {
        '4'
    } else if d == 5 {
        '5'
    } else if d == 6 {
        '6'
    } else if d == 7 {
        '7'
    } else if d == 8 {
        '8'
    } else {
        '9'
    }
}

/// The three decimal digits of `code`, most significant first, for codes
/// below 1000.
pub open spec fn code_digits(code: int) -> Seq<char> {
    seq![digit_char(code / 100), digit_char((code / 10) % 10), digit_char(code % 10)]
}

/// The request URL for `code`: the fixed image-host base followed by the
/// decimal status code.
pub open spec fn url_chars(code: int) -> Seq<char> {
    "https://http.cat/"@ + code_digits(code)
}

/// The decimal digit `d` as a one-character string slice.
fn digit_str(d: u16) -> (s: &'static str)
    requires
        d < 10,
    ensures
        s@ == seq![digit_char(d as int)],
{
    proof {
        reveal_strlit("0");
        reveal_strlit("1");
        reveal_strlit("2");
        reveal_strlit("3");
        reveal_strlit("4");
        reveal_strlit("5");
        reveal_strlit("6");
        reveal_strlit("7");
        reveal_strlit("8");
        reveal_strlit("9");
    }
    let s: &'static str = match d {
        0 => "0",
        1 => "1",
        2 => "2",
        3 => "3",
        4 => "4",
        5 => "5",
        6 => "6",
        7 => "7",
        8 => "8",
        _ => "9",
    };
    proof {
        assert(s@ =~= seq![digit_char(d as int)]);
    }
    s
}

impl HttpCat {
    /// The URL from which this entry's image is fetched: the fixed image-host
    /// base with the entry's decimal status code appended.
    pub fn request_url(self) -> (r: String)
        ensures
            r@ == url_chars(self.code() as int),
    {
        let code: u16 = self.to_code();
        let mut url = String::from_str("https://http.cat/");
        proof {
            reveal_strlit("https://http.cat/");
        }
        url.append(digit_str(code / 100));
        url.append(digit_str((code / 10) % 10));
        url.append(digit_str(code % 10));
        proof {
            assert(url@ =~= url_chars(self.code() as int));
        }
        url
    }
}

/// Decodes a received response body as a JPEG image. The format is fixed by
/// contract with the image host, not auto-detected, so undecodable bytes are
/// an `Error::Decode`, never a retry or a fallback image.
pub fn decode_image(bytes: &Vec<u8>) -> (r: Result<image::DynamicImage, Error>)
    ensures
        r is Ok <==> jpeg_decodes(bytes@),
        r matches Ok(img) ==> jpeg_decode_of(bytes@) == Some(img),
        r matches Err(e) ==> e matches Error::Decode(_),
{
    match decode_jpeg(bytes) {
        Ok(img) => Ok(img),
        Err(msg) => Err(Error::Decode(msg)),
    }
}

/// Turns the outcome of the network exchange for an entry's image into the
/// decoded bitmap. A transport failure is surfaced unchanged as
/// `Error::Transport`; a received body is force-decoded as JPEG, whatever
/// content type the server declared. Both failures are terminal: nothing is
/// retried or swallowed.
pub fn process_response(outcome: Result<Vec<u8>, String>) -> (r: Result<
    image::DynamicImage,
    Error,
>)
    ensures
        outcome matches Err(msg) ==> r == Err::<image::DynamicImage, Error>(
            Error::Transport(msg),
        ),
        outcome matches Ok(bytes) ==> (r is Ok <==> jpeg_decodes(bytes@)),
        outcome matches Ok(bytes) ==> (r matches Ok(img) ==> jpeg_decode_of(bytes@) == Some(
            img,
        )),
        outcome is Ok ==> (r matches Err(e) ==> e matches Error::Decode(_)),
{
    match outcome {
        Ok(bytes) => decode_image(&bytes),
        Err(msg) => Err(Error::Transport(msg)),
    }
}

} // verus!
