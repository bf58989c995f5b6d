//! Verified core of a texture-record extractor: header parsing, palette
//! location, decode dispatch and alpha policy for per-platform texture
//! records.

mod alpha;
mod decoded;
mod dispatch;
mod export;
mod header;
mod palette;

pub use alpha::ALPHA_EXCLUSION_COUNT;
pub use alpha::alpha_excluded;
pub use alpha::preserve_alpha;
pub use alpha::spec_alpha_excluded;
pub use decoded::BYTES_PER_PIXEL;
pub use decoded::DecodedImage;
pub use decoded::OPAQUE_ALPHA;
pub use decoded::from_pixels;
pub use decoded::has_pixel_len;
pub use decoded::resolve_alpha;

pub use dispatch::DecodePlan;
pub use dispatch::DecoderKind;
pub use dispatch::PAYLOAD_OFFSET;
pub use dispatch::Platform;
pub use dispatch::lemma_dispatch_table_total;
pub use dispatch::lemma_plan_ranges_consistent;
pub use dispatch::plan_record;
pub use dispatch::platform_byte_order;
pub use dispatch::select_decoder;
pub use dispatch::spec_plan_record;
pub use dispatch::spec_platform_byte_order;
pub use dispatch::spec_select_decoder;
pub use export::RgbaExport;
pub use export::export_bytes;
pub use export::export_dims;
pub use export::from_rgba_export;
pub use export::to_rgba_export;
pub use header::ByteOrder;
pub use header::DIRECT_DISCRIMINANT;
pub use header::DIRECT_HEADER_LEN;
pub use header::DISCRIMINANT_OFFSET;
pub use header::Encoding;
pub use header::HEIGHT_OFFSET;
pub use header::INDEXED_DISCRIMINANT;
pub use header::INDEXED_HEADER_LEN;
pub use header::LARGE_PALETTE_ENTRIES;
pub use header::PALETTE_COUNT_OFFSET;
pub use header::PaletteSize;
pub use header::SMALL_PALETTE_ENTRIES;
pub use header::TextureError;
pub use header::TextureHeader;
pub use header::WIDTH_OFFSET;
pub use header::find_first_zero;
pub use header::has_zero;
pub use header::header_start;
pub use header::is_first_zero;
pub use header::lemma_first_zero_unique;
pub use header::lemma_header_start_is_first_zero;
pub use header::parse_header;
pub use header::spec_parse_header;
pub use header::u16_field;
pub use palette::LARGE_PALETTE_BYTES;
pub use palette::SMALL_PALETTE_BYTES;
pub use palette::locate_palette;
pub use palette::palette_byte_len;
pub use palette::spec_palette_byte_len;
