use vstd::prelude::*;

use crate::text::option_text;

verus! {

/// The page of the OPES app that checks a visitor in at an access node.
pub const CHECK_IN_URL: &'static str = "https://mobile.opes.pe/opesapp/check-in";

/// The side of a QR code image, in pixels.
pub const QR_SIZE: usize = 400;

/// The text of the URL that `url::Url::parse` reads from `s`, as the parsed
/// URL writes itself out.
pub uninterp spec fn spec_url_normalize(s: Seq<char>) -> Option<Seq<char>>;

/// The text of the URL that `url::Url::parse_with_params` makes of `base`
/// and the query `pairs`.
pub uninterp spec fn spec_url_with_query(base: Seq<char>, pairs: Seq<(Seq<char>, Seq<char>)>) -> Option<
    Seq<char>,
>;

/// The SVG image that `qrcode_generator::to_svg_to_string` draws of `data`
/// at the lowest error correction level (`QrCodeEcc::Low`) and `size`
/// pixels, given no description (so with the generator's own).
pub uninterp spec fn spec_qr_svg(data: Seq<char>, size: usize) -> Option<Seq<char>>;

pub open spec fn pairs_text(pairs: Seq<(String, String)>) -> Seq<(Seq<char>, Seq<char>)> {
    pairs.map_values(|p: (String, String)| (p.0@, p.1@))
}

/// Parses `s` with `url::Url::parse` and writes the URL out again. The
/// contract names the result; the URL grammar is not restated here.
#[verifier::external_body]
fn url_normalize(s: &str) -> (url: Option<String>)
    ensures
        match url {
            Some(u) => spec_url_normalize(s@) == Some(u@),
            None => spec_url_normalize(s@) is None,
        },
{
    match url::Url::parse(s) {
        Ok(u) => Some(u.to_string()),
        Err(_) => None,
    }
}

/// Builds a URL with `url::Url::parse_with_params` and writes it out. The
/// contract names the result; the encoding of the query is not restated here.
#[verifier::external_body]
fn url_with_query(base: &str, pairs: &Vec<(String, String)>) -> (url: Option<String>)
    ensures
        match url {
            Some(u) => spec_url_with_query(base@, pairs_text(pairs@)) == Some(u@),
            None => spec_url_with_query(base@, pairs_text(pairs@)) is None,
        },
{
    match url::Url::parse_with_params(base, pairs) {
        Ok(u) => Some(u.to_string()),
        Err(_) => None,
    }
}

/// Draws a QR code with `qrcode_generator::to_svg_to_string` at the lowest
/// error correction level. The contract names the result; the drawing is not
/// restated here.
#[verifier::external_body]
fn qr_svg(data: &str, size: usize) -> (svg: Option<String>)
    ensures
        match svg {
            Some(s) => spec_qr_svg(data@, size) == Some(s@),
            None => spec_qr_svg(data@, size) is None,
        },
{
    match qrcode_generator::to_svg_to_string(data, qrcode_generator::QrCodeEcc::Low, size, None::<&str>) {
        Ok(s) => Some(s),
        Err(_) => None,
    }
}

/// The query of a check-in link.
pub open spec fn check_in_query(name: Seq<char>, anode_url: Seq<char>, source: Seq<char>) -> Seq<
    (Seq<char>, Seq<char>),
> {
    seq![("name"@, name), ("url"@, anode_url), ("source"@, source)]
}

/// The check-in link for the access node `name` at `url`, for the source
/// `source`; none when the access node's URL does not parse.
pub open spec fn spec_generate_url(name: Seq<char>, url: Seq<char>, source: Seq<char>) -> Option<
    Seq<char>,
> {
    match spec_url_normalize(url) {
        Some(anode_url) => spec_url_with_query(
            CHECK_IN_URL@,
            check_in_query(name, anode_url, source),
        ),
        None => None,
    }
}

/// The check-in link for an access node, if it can be formed.
pub fn try_generate_url(name: &str, url: &str, source: &str) -> (link: Option<String>)
    ensures
        option_text(link) == spec_generate_url(name@, url@, source@),
{
    proof {
        reveal_strlit("name");
        reveal_strlit("url");
        reveal_strlit("source");
    }
    match url_normalize(url) {
        None => None,
        Some(anode_url) => {
            let mut pairs: Vec<(String, String)> = Vec::new();
            pairs.push((String::from_str("name"), String::from_str(name)));
            pairs.push((String::from_str("url"), anode_url));
            pairs.push((String::from_str("source"), String::from_str(source)));
            proof {
                assert(pairs_text(pairs@) =~= check_in_query(name@, pairs@[1].1@, source@));
            }
            url_with_query(CHECK_IN_URL, &pairs)
        },
    }
}

/// The check-in link for the access node `name` at `url`, for `source`. An
/// access node URL that does not parse is no valid input.
pub fn generate_url(name: &str, url: &str, source: &str) -> (link: String)
    requires
        spec_generate_url(name@, url@, source@) is Some,
    ensures
        spec_generate_url(name@, url@, source@) == Some(link@),
{
    match try_generate_url(name, url, source) {
        Some(link) => link,
        None => String::new(),
    }
}

/// A QR code (as SVG) of `url`, if one can be drawn.
pub fn try_generate(url: &str) -> (svg: Option<String>)
    ensures
        option_text(svg) == spec_qr_svg(url@, QR_SIZE),
{
    match qr_svg(url, QR_SIZE) {
        Some(_) => Some(generate(url)),
        None => None,
    }
}

/// A QR code (as SVG) of `url`. Data too long for a QR code is no valid
/// input.
pub fn generate(url: &str) -> (svg: String)
    requires
        spec_qr_svg(url@, QR_SIZE) is Some,
    ensures
        spec_qr_svg(url@, QR_SIZE) == Some(svg@),
{
    match qr_svg(url, QR_SIZE) {
        Some(s) => s,
        None => String::new(),
    }
}

} // verus!
