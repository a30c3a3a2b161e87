//! Shared screenshots: what is read from a picture's first bytes, and the
//! addresses and the description under which a picture is offered.

use crate::errors::ApiError;
use crate::text::{ends_with, same_text};
use vstd::prelude::*;
use vstd::string::StringExecFns;

verus! {

/// The first eight bytes of every PNG file.
pub open spec fn png_signature() -> Seq<u8> {
    seq![0x89u8, 0x50u8, 0x4eu8, 0x47u8, 0x0du8, 0x0au8, 0x1au8, 0x0au8]
}

/// The start of the first chunk of every PNG file: its length, thirteen,
/// and its type, `IHDR`.
pub open spec fn png_header_chunk() -> Seq<u8> {
    seq![0u8, 0u8, 0u8, 13u8, 0x49u8, 0x48u8, 0x44u8, 0x52u8]
}

/// The signed number that four bytes stand for, the highest byte first.
pub open spec fn spec_be_i32(bytes: Seq<u8>) -> int {
    let unsigned = bytes[0] * 0x100_0000 + bytes[1] * 0x1_0000 + bytes[2] * 0x100 + bytes[3];
    if unsigned >= 0x8000_0000 {
        unsigned - 0x1_0000_0000
    } else {
        unsigned
    }
}

fn be_i32(bytes: &[u8], at: usize) -> (r: i32)
    requires
        at + 4 <= bytes.len(),
    ensures
        r == spec_be_i32(bytes@.subrange(at as int, at + 4)),
{
    let unsigned: i64 = (bytes[at] as i64) * 0x100_0000 + (bytes[at + 1] as i64) * 0x1_0000 + (
    bytes[at + 2] as i64) * 0x100 + (bytes[at + 3] as i64);
    if unsigned >= 0x8000_0000 {
        (unsigned - 0x1_0000_0000) as i32
    } else {
        unsigned as i32
    }
}

/// Width and height of a picture.
#[derive(Clone, Copy, Debug, PartialEq, Eq, Structural)]
pub struct PngInfo {
    pub width: i32,
    pub height: i32,
}

impl PngInfo {
    /// What the first bytes of a file tell of the picture in it: nothing
    /// unless they are the signature and the start of the header chunk of a
    /// PNG file, followed by the width and the height.
    pub open spec fn spec_create(reader: Seq<u8>) -> Option<PngInfo> {
        if reader.len() >= 24 && reader.subrange(0, 8) == png_signature() && reader.subrange(8, 16)
            == png_header_chunk() {
            Some(
                PngInfo {
                    width: spec_be_i32(reader.subrange(16, 20)) as i32,
                    height: spec_be_i32(reader.subrange(20, 24)) as i32,
                },
            )
        } else {
            None
        }
    }

    pub fn create(reader: &[u8]) -> (r: Option<PngInfo>)
        ensures
            r == PngInfo::spec_create(reader@),
    {
        if reader.len() < 24 {
            return None;
        }
        let signature: [u8; 8] = [0x89, 0x50, 0x4e, 0x47, 0x0d, 0x0a, 0x1a, 0x0a];
        let chunk: [u8; 8] = [0, 0, 0, 13, 0x49, 0x48, 0x44, 0x52];
        let mut i: usize = 0;
        while i < 8
            invariant
                i <= 8,
                reader.len() >= 24,
                signature@ == png_signature(),
                chunk@ == png_header_chunk(),
                forall|j: int| 0 <= j < i ==> reader@[j] == signature@[j],
                forall|j: int| 0 <= j < i ==> reader@[8 + j] == chunk@[j],
            decreases 8 - i,
        {
            if reader[i] != signature[i] {
                assert(reader@.subrange(0, 8)[i as int] != png_signature()[i as int]);
                return None;
            }
            if reader[8 + i] != chunk[i] {
                assert(reader@.subrange(8, 16)[i as int] != png_header_chunk()[i as int]);
                return None;
            }
            i = i + 1;
        }
        assert(reader@.subrange(0, 8) =~= png_signature());
        assert(reader@.subrange(8, 16) =~= png_header_chunk());
        Some(PngInfo { width: be_i32(reader, 16), height: be_i32(reader, 20) })
    }
}

/// The address under which the service is reached when no domain is
/// configured.
pub const DEFAULT_BASE_URL: &'static str = "https://api.axolotlclient.com/v1/";

/// The address under which the service is reached: the configured domain,
/// with a slash behind it if it has none, or the default.
pub open spec fn spec_base_url(domain_name: Option<Seq<char>>) -> Seq<char> {
    match domain_name {
        Some(name) => if "/"@.is_suffix_of(name) {
            name
        } else {
            name + "/"@
        },
        None => DEFAULT_BASE_URL@,
    }
}

pub fn base_url(domain_name: Option<&str>) -> (r: String)
    ensures
        r@ == spec_base_url(
            match domain_name {
                Some(name) => Some(name@),
                None => None,
            },
        ),
{
    match domain_name {
        Some(name) => if ends_with(name, "/") {
            name.to_owned()
        } else {
            name.to_owned().concat("/")
        },
        None => DEFAULT_BASE_URL.to_owned(),
    }
}

/// The address of the page of the picture `id`.
pub fn image_url(base: &str, id: &str) -> (r: String)
    ensures
        r@ == base@ + "image/"@ + id@,
{
    base.to_owned().concat("image/").concat(id)
}

/// The address of the bytes of the picture whose page is at `page`.
pub fn raw_url(page: &str) -> (r: String)
    ensures
        r@ == page@ + "/raw"@,
{
    page.to_owned().concat("/raw")
}

/// The description of a picture for sites that embed it.
#[derive(Clone, Debug, PartialEq, Eq)]
pub struct OEmbed {
    pub version: &'static str,
    pub _type: &'static str,
    pub title: String,
    pub url: String,
    pub width: i32,
    pub height: i32,
    pub provider_name: &'static str,
    pub provider_url: &'static str,
}

impl OEmbed {
    pub fn create(title: String, url: String, png: PngInfo) -> (r: OEmbed)
        ensures
            r.version@ == "1.0"@,
            r._type@ == "photo"@,
            r.title@ == title@ + " | AxolotlClient"@,
            r.url == url,
            r.width == png.width,
            r.height == png.height,
            r.provider_name@ == "AxolotlClient"@,
            r.provider_url@ == "https://axolotlclient.com"@,
    {
        OEmbed {
            version: "1.0",
            _type: "photo",
            title: title.concat(" | AxolotlClient"),
            url,
            width: png.width,
            height: png.height,
            provider_name: "AxolotlClient",
            provider_url: "https://axolotlclient.com",
        }
    }
}

/// The format in which a description is asked for.
#[derive(Clone, Debug, PartialEq, Eq)]
pub struct OEmbedQuery {
    pub format: String,
}

/// The description of the stored picture `id`, named `filename`, for a
/// site that asks for it. A file that is no PNG file is a bad request; any
/// format but `json` is not offered.
pub fn oembed(
    query: &OEmbedQuery,
    filename: String,
    file: &[u8],
    domain_name: Option<&str>,
    id: &str,
) -> (r: Result<OEmbed, ApiError>)
    ensures
        match PngInfo::spec_create(file@) {
            None => r == Err::<OEmbed, ApiError>(ApiError::BadRequest),
            Some(png) => if query.format@ == "json"@ {
                &&& r matches Ok(embed)
                &&& embed.title@ == filename@ + " | AxolotlClient"@
                &&& embed.url@ == spec_base_url(
                    match domain_name {
                        Some(name) => Some(name@),
                        None => None,
                    },
                ) + id@ + "/raw"@
                &&& embed.width == png.width
                &&& embed.height == png.height
            } else {
                r == Err::<OEmbed, ApiError>(ApiError::NotImplemented)
            },
        },
{
    let png = match PngInfo::create(file) {
        Some(png) => png,
        None => {
            return Err(ApiError::BadRequest);
        },
    };
    if !same_text(query.format.as_str(), "json") {
        return Err(ApiError::NotImplemented);
    }
    let url = base_url(domain_name).concat(id).concat("/raw");
    Ok(OEmbed::create(filename, url, png))
}

} // verus!
