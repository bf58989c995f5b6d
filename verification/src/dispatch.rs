//! Routing a parsed record to the pixel-decode routine its platform and
//! encoding call for, and deriving the byte ranges that routine consumes.

use vstd::prelude::*;
use crate::header::ByteOrder;
use crate::header::Encoding;
use crate::header::PaletteSize;
use crate::header::TextureError;
use crate::header::find_first_zero;
use crate::header::header_start;
use crate::header::lemma_first_zero_unique;
use crate::header::lemma_header_start_is_first_zero;
use crate::header::parse_header;
use crate::header::spec_parse_header;
use crate::palette::palette_byte_len;
use crate::palette::spec_palette_byte_len;

verus! {

/// Platform family a record's archive belongs to.
#[derive(Clone, Copy, Debug, PartialEq, Eq, Structural)]
pub enum Platform {
    Playstation2,
    Gamecube,
    Xbox,
}

/// The pixel-reconstruction routine a record must be handed to.
#[derive(Clone, Copy, Debug, PartialEq, Eq, Structural)]
pub enum DecoderKind {
    /// Pixel bytes hold RGBA color values directly.
    DirectColor,
    /// Pixel bytes hold block-compressed color data.
    BlockCompressed,
    /// Pixel bytes hold four-bit indices into a small palette.
    FourBitIndexed,
    /// Pixel bytes hold eight-bit indices into a large palette.
    EightBitIndexed,
}

/// Byte offset of the pixel payload past the header start.
pub const PAYLOAD_OFFSET: usize = 21;

/// Byte order of each platform's archives and header fields.
pub open spec fn spec_platform_byte_order(platform: Platform) -> ByteOrder {
    match platform {
        Platform::Playstation2 => ByteOrder::Little,
        Platform::Gamecube => ByteOrder::Big,
        Platform::Xbox => ByteOrder::Little,
    }
}

/// Byte order of each platform's archives and header fields.
pub fn platform_byte_order(platform: Platform) -> (r: ByteOrder)
    ensures
        r == spec_platform_byte_order(platform),
{
    match platform {
        Platform::Playstation2 => ByteOrder::Little,
        Platform::Gamecube => ByteOrder::Big,
        Platform::Xbox => ByteOrder::Little,
    }
}

/// The fixed dispatch table: which decoder serves each platform and encoding,
/// and which combination no platform decoder serves.
pub open spec fn spec_select_decoder(platform: Platform, encoding: Encoding) -> Result<
    DecoderKind,
    TextureError,
> {
    match (platform, encoding) {
        (Platform::Playstation2, Encoding::Direct) => Ok(DecoderKind::DirectColor),
        (Platform::Playstation2, Encoding::Indexed(PaletteSize::Entries16)) => Ok(
            DecoderKind::FourBitIndexed,
        ),
        (Platform::Playstation2, Encoding::Indexed(PaletteSize::Entries256)) => Ok(
            DecoderKind::EightBitIndexed,
        ),
        (Platform::Gamecube, Encoding::Direct) => Ok(DecoderKind::BlockCompressed),
        (Platform::Gamecube, Encoding::Indexed(PaletteSize::Entries16)) => Ok(
            DecoderKind::FourBitIndexed,
        ),
        (Platform::Gamecube, Encoding::Indexed(PaletteSize::Entries256)) => Ok(
            DecoderKind::EightBitIndexed,
        ),
        (Platform::Xbox, Encoding::Direct) => Ok(DecoderKind::DirectColor),
        (Platform::Xbox, Encoding::Indexed(PaletteSize::Entries16)) => Err(
            TextureError::UnsupportedFormat,
        ),
        (Platform::Xbox, Encoding::Indexed(PaletteSize::Entries256)) => Ok(
            DecoderKind::EightBitIndexed,
        ),
    }
}

/// Selects the decoder of the fixed dispatch table for this platform and
/// encoding, failing with `UnsupportedFormat` on the one combination outside
/// the table.
pub fn select_decoder(platform: Platform, encoding: Encoding) -> (r: Result<
    DecoderKind,
    TextureError,
>)
    ensures
        r == spec_select_decoder(platform, encoding),
{
    match (platform, encoding) {
        (Platform::Playstation2, Encoding::Direct) => Ok(DecoderKind::DirectColor),
        (Platform::Playstation2, Encoding::Indexed(PaletteSize::Entries16)) => Ok(
            DecoderKind::FourBitIndexed,
        ),
        (Platform::Playstation2, Encoding::Indexed(PaletteSize::Entries256)) => Ok(
            DecoderKind::EightBitIndexed,
        ),
        (Platform::Gamecube, Encoding::Direct) => Ok(DecoderKind::BlockCompressed),
        (Platform::Gamecube, Encoding::Indexed(PaletteSize::Entries16)) => Ok(
            DecoderKind::FourBitIndexed,
        ),
        (Platform::Gamecube, Encoding::Indexed(PaletteSize::Entries256)) => Ok(
            DecoderKind::EightBitIndexed,
        ),
        (Platform::Xbox, Encoding::Direct) => Ok(DecoderKind::DirectColor),
        (Platform::Xbox, Encoding::Indexed(PaletteSize::Entries16)) => Err(
            TextureError::UnsupportedFormat,
        ),
        (Platform::Xbox, Encoding::Indexed(PaletteSize::Entries256)) => Ok(
            DecoderKind::EightBitIndexed,
        ),
    }
}

/// Law: dispatch is total on the fixed table. Every platform and encoding
/// combination selects exactly one decoder, except an indexed record with a
/// small palette on the platform without four-bit indexed decoding, which
/// fails with `UnsupportedFormat` — and with nothing else.
pub proof fn lemma_dispatch_table_total(platform: Platform, encoding: Encoding)
    ensures
        spec_select_decoder(platform, encoding) == Err::<DecoderKind, TextureError>(
            TextureError::UnsupportedFormat,
        ) <==> (platform == Platform::Xbox && encoding == Encoding::Indexed(
            PaletteSize::Entries16,
        )),
        spec_select_decoder(platform, encoding) is Ok <==> !(platform == Platform::Xbox
            && encoding == Encoding::Indexed(PaletteSize::Entries16)),
{
}

/// Everything the dispatcher derives from one record: the decoder to invoke,
/// the record's geometry, the byte range of the pixel payload, and, for
/// indexed encodings, where the trailing palette region starts (it runs to
/// the record's end).
#[derive(Clone, Copy, Debug, PartialEq, Eq)]
pub struct DecodePlan {
    pub decoder: DecoderKind,
    pub width: u16,
    pub height: u16,
    pub payload_start: usize,
    pub payload_end: usize,
    pub palette_start: Option<usize>,
}

/// The plan derived from record bytes `s` on `platform`: header parsing, then
/// decoder selection, then the payload and palette ranges. `MalformedRecord`
/// when the header does not parse or the record is too short to hold the
/// payload and palette the header calls for; `UnsupportedFormat` when the
/// dispatch table has no decoder for the parsed encoding on this platform.
pub open spec fn spec_plan_record(platform: Platform, s: Seq<u8>) -> Result<
    DecodePlan,
    TextureError,
> {
    match spec_parse_header(s, spec_platform_byte_order(platform)) {
        None => Err(TextureError::MalformedRecord),
        Some(h) => match spec_select_decoder(platform, h.encoding) {
            Err(e) => Err(e),
            Ok(decoder) => {
                let p = header_start(s);
                match h.encoding {
                    Encoding::Direct => if s.len() >= p + PAYLOAD_OFFSET {
                        Ok(
                            DecodePlan {
                                decoder,
                                width: h.width,
                                height: h.height,
                                payload_start: (p + PAYLOAD_OFFSET) as usize,
                                payload_end: s.len() as usize,
                                palette_start: None,
                            },
                        )
                    } else {
                        Err(TextureError::MalformedRecord)
                    },
                    Encoding::Indexed(size) => {
                        let n = spec_palette_byte_len(size);
                        if s.len() >= p + PAYLOAD_OFFSET + n {
                            Ok(
                                DecodePlan {
                                    decoder,
                                    width: h.width,
                                    height: h.height,
                                    payload_start: (p + PAYLOAD_OFFSET) as usize,
                                    payload_end: (s.len() - n) as usize,
                                    palette_start: Some((s.len() - n) as usize),
                                },
                            )
                        } else {
                            Err(TextureError::MalformedRecord)
                        }
                    },
                }
            },
        },
    }
}

/// Law: the ranges of a successful plan are consistent views into the record.
/// The payload lies inside the record and keeps the parsed geometry; for a
/// direct encoding it runs to the record's end and there is no palette; for
/// an indexed encoding the payload ends exactly where the palette region
/// starts, and that region is the record's trailing bytes of the palette's
/// fixed size — the two never overlap.
pub proof fn lemma_plan_ranges_consistent(platform: Platform, s: Seq<u8>)
    requires
        spec_plan_record(platform, s) is Ok,
        s.len() <= usize::MAX,
    ensures
        ({
            let plan = spec_plan_record(platform, s)->Ok_0;
            let parsed = spec_parse_header(s, spec_platform_byte_order(platform));
            &&& parsed is Some
            &&& plan.payload_start <= plan.payload_end <= s.len()
            &&& plan.width == parsed->Some_0.width
            &&& plan.height == parsed->Some_0.height
            &&& match parsed->Some_0.encoding {
                Encoding::Direct => plan.palette_start is None && plan.payload_end == s.len(),
                Encoding::Indexed(size) => plan.palette_start == Some(plan.payload_end)
                    && plan.payload_end + spec_palette_byte_len(size) == s.len(),
            }
        }),
{
    lemma_header_start_is_first_zero(s);
}

/// Runs the per-record front half of the pipeline: parses the header in the
/// platform's byte order, selects the decoder from the dispatch table, and
/// derives the payload and palette byte ranges, checking that the record is
/// long enough to hold them.
pub fn plan_record(platform: Platform, record: &[u8]) -> (r: Result<DecodePlan, TextureError>)
    ensures
        r == spec_plan_record(platform, record@),
{
    let order = platform_byte_order(platform);
    let header = match parse_header(record, order) {
        Ok(h) => h,
        Err(e) => {
            return Err(e);
        },
    };
    let decoder = match select_decoder(platform, header.encoding) {
        Ok(d) => d,
        Err(e) => {
            return Err(e);
        },
    };
    let p = match find_first_zero(record) {
        Some(p) => p,
        None => {
            // A parsed header implies a sentinel byte exists.
            proof {
                assert(false);
            }
            return Err(TextureError::MalformedRecord);
        },
    };
    proof {
        lemma_first_zero_unique(record@, p as int);
    }
    match header.encoding {
        Encoding::Direct => {
            if record.len() - p >= PAYLOAD_OFFSET {
                Ok(
                    DecodePlan {
                        decoder,
                        width: header.width,
                        height: header.height,
                        payload_start: p + PAYLOAD_OFFSET,
                        payload_end: record.len(),
                        palette_start: None,
                    },
                )
            } else {
                Err(TextureError::MalformedRecord)
            }
        },
        Encoding::Indexed(size) => {
            let n = palette_byte_len(size);
            if record.len() - p >= PAYLOAD_OFFSET && record.len() - p - PAYLOAD_OFFSET >= n {
                Ok(
                    DecodePlan {
                        decoder,
                        width: header.width,
                        height: header.height,
                        payload_start: p + PAYLOAD_OFFSET,
                        payload_end: record.len() - n,
                        palette_start: Some(record.len() - n),
                    },
                )
            } else {
                Err(TextureError::MalformedRecord)
            }
        },
    }
}

} // verus!
