//! Settings that an exported PNG carries in its text chunks, and reading
//! them back.
//!
//! An export writes one `(keyword, text)` chunk per setting; loading a PNG
//! finds each setting by keyword (the first chunk with that keyword wins),
//! checks the required ones and falls back to defaults for the rest. Values
//! in floating point travel as their text, which must follow the float
//! grammar; the application converts them.

use vstd::prelude::*;
use crate::text::{
    chars_of, parse_u32_chars, parse_u64_chars, parse_bool_chars, is_float_literal_chars,
    decimal_chars, bool_chars, string_from_chars, parse_decimal, parse_bool, is_float_literal,
    decimal, bool_text, lemma_parse_decimal_of_decimal, lemma_parse_bool_text,
};
use crate::app_state::{FractalType, decimal_or, lemma_fractal_type_name_texts};
use crate::filtering::FilterType;

verus! {

pub const KEY_FRACTAL_TYPE: &'static str = "Fractal-Type";

pub const KEY_FRACTAL_PARAMETERS: &'static str = "Fractal-Parameters";

pub const KEY_CENTER_X: &'static str = "View-CenterX";

pub const KEY_CENTER_Y: &'static str = "View-CenterY";

pub const KEY_ZOOM: &'static str = "View-Zoom";

pub const KEY_WIDTH: &'static str = "View-Width";

pub const KEY_HEIGHT: &'static str = "View-Height";

pub const KEY_MAX_ITERATIONS: &'static str = "Max-Iterations";

pub const KEY_COLORMAP_NAME: &'static str = "Colormap-Name";

pub const KEY_COLORMAP_DATA: &'static str = "Colormap-Data";

pub const KEY_PERIOD_ENABLED: &'static str = "Color-Period-Enabled";

pub const KEY_PERIOD: &'static str = "Color-Period";

pub const KEY_INTERIOR_ENABLED: &'static str = "Interior-Color-Enabled";

pub const KEY_INTERIOR_RGB: &'static str = "Interior-Color-RGB";

pub const KEY_LOG_SCALE: &'static str = "Log-Scale-Enabled";

pub const KEY_FILTER: &'static str = "Export-Filter";

pub const KEY_SUPERSAMPLE: &'static str = "Export-Supersample";

pub const KEY_SCALE: &'static str = "Export-Scale";

pub const KEY_VERSION: &'static str = "Forma-Fractalis-Version";

pub const KEY_METADATA_VERSION: &'static str = "Metadata-Version";

pub const KEY_TIMESTAMP: &'static str = "Created-Timestamp";

/// Version of the layout of the text chunks.
pub const METADATA_VERSION: &'static str = "1.0";

pub const ERR_NO_METADATA: &'static str = "This PNG does not contain Forma Fractalis metadata";

pub const ERR_FRACTAL_TYPE: &'static str = "Missing fractal type in metadata";

pub const ERR_CENTER_X: &'static str = "Missing or invalid View-CenterX";

pub const ERR_CENTER_Y: &'static str = "Missing or invalid View-CenterY";

pub const ERR_ZOOM: &'static str = "Missing or invalid View-Zoom";

pub const ERR_MAX_ITERATIONS: &'static str = "Missing or invalid Max-Iterations";

pub const ERR_COLORMAP_NAME: &'static str = "Missing colormap name";

pub type Chunks = Seq<(Seq<char>, Seq<char>)>;

pub open spec fn chunks_view(ch: Seq<(String, String)>) -> Chunks {
    ch.map_values(|p: (String, String)| (p.0@, p.1@))
}

pub open spec fn opt_view(o: Option<String>) -> Option<Seq<char>> {
    match o {
        Some(s) => Some(s@),
        None => None,
    }
}

pub open spec fn opt_nat(o: Option<u64>) -> Option<nat> {
    match o {
        Some(v) => Some(v as nat),
        None => None,
    }
}

/// The text of the first chunk whose keyword is `key`.
pub open spec fn find_text(ch: Chunks, key: Seq<char>) -> Option<Seq<char>>
    decreases ch.len(),
{
    if ch.len() == 0 {
        None
    } else if ch[0].0 == key {
        Some(ch[0].1)
    } else {
        find_text(ch.drop_first(), key)
    }
}

/// An unsigned setting: its text read in decimal, `default` where the chunk
/// is missing or does not read.
pub open spec fn decimal_field(ch: Chunks, key: Seq<char>, max: nat, default: nat) -> nat {
    match find_text(ch, key) {
        Some(t) => decimal_or(t, max, default),
        None => default,
    }
}

/// A boolean setting: `true` or `false`, and `false` where it is missing or
/// reads as neither.
pub open spec fn bool_field(ch: Chunks, key: Seq<char>) -> bool {
    match find_text(ch, key) {
        Some(t) => match parse_bool(t) {
            Some(b) => b,
            None => false,
        },
        None => false,
    }
}

/// A floating-point setting: its text where that follows the float grammar.
pub open spec fn float_field(ch: Chunks, key: Seq<char>) -> Option<Seq<char>> {
    match find_text(ch, key) {
        Some(t) => if is_float_literal(t) {
            Some(t)
        } else {
            None
        },
        None => None,
    }
}

/// The colour that `serde_json::from_str::<[u8; 3]>` reads from a text.
pub uninterp spec fn json_rgb_value(text: Seq<char>) -> Option<Seq<u8>>;

/// The text that `serde_json::to_string` writes for a colour `[u8; 3]`: a
/// compact JSON array of the three bytes in decimal, `[r,g,b]`.
pub open spec fn json_rgb_text(rgb: Seq<u8>) -> Seq<char> {
    seq!['['] + decimal(rgb[0] as nat) + seq![','] + decimal(rgb[1] as nat) + seq![','] + decimal(
        rgb[2] as nat,
    ) + seq![']']
}

/// The interior colour setting: the JSON array it holds, black where the
/// chunk is missing or does not read.
pub open spec fn rgb_field(ch: Chunks, key: Seq<char>) -> Seq<u8> {
    match find_text(ch, key) {
        Some(t) => match json_rgb_value(t) {
            Some(v) => v,
            None => seq![0u8, 0u8, 0u8],
        },
        None => seq![0u8, 0u8, 0u8],
    }
}

pub open spec fn timestamp_field(ch: Chunks) -> Option<nat> {
    match find_text(ch, KEY_TIMESTAMP@) {
        Some(t) => parse_decimal(t, u64::MAX as nat),
        None => None,
    }
}

/// Why the chunks do not describe a render, if they do not: the first
/// required setting, in reading order, that is missing or does not read.
pub open spec fn decode_error(ch: Chunks) -> Option<Seq<char>> {
    if find_text(ch, KEY_METADATA_VERSION@) is None && find_text(ch, KEY_VERSION@) is None {
        Some(ERR_NO_METADATA@)
    } else if find_text(ch, KEY_FRACTAL_TYPE@) is None {
        Some(ERR_FRACTAL_TYPE@)
    } else if float_field(ch, KEY_CENTER_X@) is None {
        Some(ERR_CENTER_X@)
    } else if float_field(ch, KEY_CENTER_Y@) is None {
        Some(ERR_CENTER_Y@)
    } else if float_field(ch, KEY_ZOOM@) is None {
        Some(ERR_ZOOM@)
    } else if find_text(ch, KEY_MAX_ITERATIONS@) is None || parse_decimal(
        find_text(ch, KEY_MAX_ITERATIONS@).unwrap(),
        u32::MAX as nat,
    ) is None {
        Some(ERR_MAX_ITERATIONS@)
    } else if find_text(ch, KEY_COLORMAP_NAME@) is None {
        Some(ERR_COLORMAP_NAME@)
    } else {
        None
    }
}

/// The settings read from the text chunks of an exported PNG. Floating-point
/// settings and JSON documents are kept as their text.
pub struct PngTextMetadata {
    pub fractal_type: String,
    /// JSON object of the fractal parameters, where the export wrote one.
    pub fractal_parameters: Option<String>,
    /// Float literal.
    pub center_x: String,
    /// Float literal.
    pub center_y: String,
    /// Float literal.
    pub zoom: String,
    pub width: u32,
    pub height: u32,
    pub max_iterations: u32,
    pub colormap_name: String,
    /// JSON document of the colormap, where the export wrote one.
    pub colormap_data: Option<String>,
    pub use_period: bool,
    pub period: u32,
    pub use_interior_color: bool,
    pub interior_color: [u8; 3],
    pub use_log_scale: bool,
    pub export_filter: String,
    pub export_supersample: u32,
    /// Float literal, where the chunk holds one.
    pub export_scale: Option<String>,
    pub version: Option<String>,
    pub metadata_version: Option<String>,
    pub created_timestamp: Option<u64>,
}

impl PngTextMetadata {
    /// The settings are those that chunks `ch` hold, for an image of
    /// `png_width` by `png_height` pixels.
    pub open spec fn decoded_from(self, ch: Chunks, png_width: u32, png_height: u32) -> bool {
        &&& self.fractal_type@ == find_text(ch, KEY_FRACTAL_TYPE@).unwrap()
        &&& opt_view(self.fractal_parameters) == find_text(ch, KEY_FRACTAL_PARAMETERS@)
        &&& self.center_x@ == find_text(ch, KEY_CENTER_X@).unwrap()
        &&& self.center_y@ == find_text(ch, KEY_CENTER_Y@).unwrap()
        &&& self.zoom@ == find_text(ch, KEY_ZOOM@).unwrap()
        &&& self.width == decimal_field(ch, KEY_WIDTH@, u32::MAX as nat, png_width as nat)
        &&& self.height == decimal_field(ch, KEY_HEIGHT@, u32::MAX as nat, png_height as nat)
        &&& self.max_iterations == parse_decimal(
            find_text(ch, KEY_MAX_ITERATIONS@).unwrap(),
            u32::MAX as nat,
        ).unwrap()
        &&& self.colormap_name@ == find_text(ch, KEY_COLORMAP_NAME@).unwrap()
        &&& opt_view(self.colormap_data) == find_text(ch, KEY_COLORMAP_DATA@)
        &&& self.use_period == bool_field(ch, KEY_PERIOD_ENABLED@)
        &&& self.period == decimal_field(ch, KEY_PERIOD@, u32::MAX as nat, 256)
        &&& self.use_interior_color == bool_field(ch, KEY_INTERIOR_ENABLED@)
        &&& self.interior_color@ == rgb_field(ch, KEY_INTERIOR_RGB@)
        &&& self.use_log_scale == bool_field(ch, KEY_LOG_SCALE@)
        &&& self.export_filter@ == match find_text(ch, KEY_FILTER@) {
            Some(t) => t,
            None => "None"@,
        }
        &&& self.export_supersample == decimal_field(ch, KEY_SUPERSAMPLE@, u32::MAX as nat, 4)
        &&& opt_view(self.export_scale) == float_field(ch, KEY_SCALE@)
        &&& opt_view(self.version) == find_text(ch, KEY_VERSION@)
        &&& opt_view(self.metadata_version) == find_text(ch, KEY_METADATA_VERSION@)
        &&& opt_nat(self.created_timestamp) == timestamp_field(ch)
    }
}

proof fn lemma_find_text_step(ch: Chunks, i: int, key: Seq<char>)
    requires
        0 <= i < ch.len(),
        ch[i].0 != key,
    ensures
        find_text(ch.skip(i), key) == find_text(ch.skip(i + 1), key),
{
    assert(ch.skip(i).drop_first() =~= ch.skip(i + 1));
}

/// The text of the first chunk whose keyword is `key`.
fn field_text(ch: &Vec<(String, String)>, key: &str) -> (r: Option<String>)
    ensures
        opt_view(r) == find_text(chunks_view(ch@), key@),
{
    let k = key.to_owned();
    let ghost v = chunks_view(ch@);
    assert(v.skip(0) =~= v);
    let mut i: usize = 0;
    while i < ch.len()
        invariant
            i <= ch.len(),
            k@ == key@,
            v == chunks_view(ch@),
            find_text(v, key@) == find_text(v.skip(i as int), key@),
        decreases ch.len() - i,
    {
        assert(v[i as int] == (ch@[i as int].0@, ch@[i as int].1@));
        if ch[i].0 == k {
            assert(v.skip(i as int)[0] == v[i as int]);
            return Some(ch[i].1.clone());
        }
        proof {
            lemma_find_text_step(v, i as int, key@);
        }
        i = i + 1;
    }
    assert(v.skip(i as int).len() == 0);
    None
}

fn field_u32(ch: &Vec<(String, String)>, key: &str, default: u32) -> (r: u32)
    ensures
        r as nat == decimal_field(chunks_view(ch@), key@, u32::MAX as nat, default as nat),
{
    match field_text(ch, key) {
        Some(t) => {
            let v = chars_of(t.as_str());
            match parse_u32_chars(&v) {
                Some(x) => x,
                None => default,
            }
        },
        None => default,
    }
}

fn field_bool(ch: &Vec<(String, String)>, key: &str) -> (r: bool)
    ensures
        r == bool_field(chunks_view(ch@), key@),
{
    match field_text(ch, key) {
        Some(t) => {
            let v = chars_of(t.as_str());
            match parse_bool_chars(&v) {
                Some(b) => b,
                None => false,
            }
        },
        None => false,
    }
}

fn field_float(ch: &Vec<(String, String)>, key: &str) -> (r: Option<String>)
    ensures
        opt_view(r) == float_field(chunks_view(ch@), key@),
{
    match field_text(ch, key) {
        Some(t) => {
            let v = chars_of(t.as_str());
            if is_float_literal_chars(&v) {
                Some(t)
            } else {
                None
            }
        },
        None => None,
    }
}

/// `serde_json::from_str::<[u8; 3]>(text).ok()`: the colour a JSON array
/// holds. Its result is named `json_rgb_value`; nothing more is stated.
#[verifier::external_body]
fn parse_json_rgb(text: &str) -> (r: Option<[u8; 3]>)
    ensures
        r matches Some(a) ==> json_rgb_value(text@) == Some(a@),
        r is None ==> json_rgb_value(text@) is None,
{
    serde_json::from_str::<[u8; 3]>(text).ok()
}

/// `serde_json::to_string(rgb).unwrap_or_default()`: the compact JSON array
/// of a colour, `json_rgb_text` (serialising a byte array cannot fail).
/// Stated besides: reading that text with `serde_json::from_str::<[u8; 3]>`
/// gives the colour back.
#[verifier::external_body]
fn json_rgb(rgb: [u8; 3]) -> (s: String)
    ensures
        s@ == json_rgb_text(rgb@),
        json_rgb_value(s@) == Some(rgb@),
{
    serde_json::to_string(&rgb).unwrap_or_default()
}

fn field_rgb(ch: &Vec<(String, String)>, key: &str) -> (r: [u8; 3])
    ensures
        r@ == rgb_field(chunks_view(ch@), key@),
{
    match field_text(ch, key) {
        Some(t) => match parse_json_rgb(t.as_str()) {
            Some(a) => a,
            None => {
                let z: [u8; 3] = [0, 0, 0];
                assert(z@ =~= seq![0u8, 0u8, 0u8]);
                z
            },
        },
        None => {
            let z: [u8; 3] = [0, 0, 0];
            assert(z@ =~= seq![0u8, 0u8, 0u8]);
            z
        },
    }
}

/// Reads the settings of a render from the text chunks of a PNG that is
/// `png_width` by `png_height` pixels.
///
/// The chunks must carry a metadata or application version; then the fractal
/// type, the view (centre and zoom, as float literals) and the iteration
/// count are required, and the colormap name. Width and height fall back to
/// the image size, the colour period to 256, the supersample factor to 4,
/// the filter to `None`, flags to `false` and the interior colour to black.
pub fn decode_png_text_metadata(ch: &Vec<(String, String)>, png_width: u32, png_height: u32) -> (r:
    Result<PngTextMetadata, String>)
    ensures
        match r {
            Err(e) => decode_error(chunks_view(ch@)) == Some(e@),
            Ok(m) => decode_error(chunks_view(ch@)) is None && m.decoded_from(
                chunks_view(ch@),
                png_width,
                png_height,
            ),
        },
{
    let metadata_version = field_text(ch, KEY_METADATA_VERSION);
    let version = field_text(ch, KEY_VERSION);
    if metadata_version.is_none() && version.is_none() {
        return Err(ERR_NO_METADATA.to_owned());
    }
    let fractal_type = match field_text(ch, KEY_FRACTAL_TYPE) {
        Some(t) => t,
        None => {
            return Err(ERR_FRACTAL_TYPE.to_owned());
        },
    };
    let fractal_parameters = field_text(ch, KEY_FRACTAL_PARAMETERS);
    let center_x = match field_float(ch, KEY_CENTER_X) {
        Some(t) => t,
        None => {
            return Err(ERR_CENTER_X.to_owned());
        },
    };
    let center_y = match field_float(ch, KEY_CENTER_Y) {
        Some(t) => t,
        None => {
            return Err(ERR_CENTER_Y.to_owned());
        },
    };
    let zoom = match field_float(ch, KEY_ZOOM) {
        Some(t) => t,
        None => {
            return Err(ERR_ZOOM.to_owned());
        },
    };
    let width = field_u32(ch, KEY_WIDTH, png_width);
    let height = field_u32(ch, KEY_HEIGHT, png_height);
    let max_iterations = match field_text(ch, KEY_MAX_ITERATIONS) {
        Some(t) => {
            let v = chars_of(t.as_str());
            match parse_u32_chars(&v) {
                Some(x) => x,
                None => {
                    return Err(ERR_MAX_ITERATIONS.to_owned());
                },
            }
        },
        None => {
            return Err(ERR_MAX_ITERATIONS.to_owned());
        },
    };
    let colormap_name = match field_text(ch, KEY_COLORMAP_NAME) {
        Some(t) => t,
        None => {
            return Err(ERR_COLORMAP_NAME.to_owned());
        },
    };
    let colormap_data = field_text(ch, KEY_COLORMAP_DATA);
    let use_period = field_bool(ch, KEY_PERIOD_ENABLED);
    let period = field_u32(ch, KEY_PERIOD, 256);
    let use_interior_color = field_bool(ch, KEY_INTERIOR_ENABLED);
    let interior_color = field_rgb(ch, KEY_INTERIOR_RGB);
    let use_log_scale = field_bool(ch, KEY_LOG_SCALE);
    let export_filter = match field_text(ch, KEY_FILTER) {
        Some(t) => t,
        None => "None".to_owned(),
    };
    let export_supersample = field_u32(ch, KEY_SUPERSAMPLE, 4);
    let export_scale = field_float(ch, KEY_SCALE);
    let created_timestamp = match field_text(ch, KEY_TIMESTAMP) {
        Some(t) => {
            let v = chars_of(t.as_str());
            parse_u64_chars(&v)
        },
        None => None,
    };
    Ok(
        PngTextMetadata {
            fractal_type,
            fractal_parameters,
            center_x,
            center_y,
            zoom,
            width,
            height,
            max_iterations,
            colormap_name,
            colormap_data,
            use_period,
            period,
            use_interior_color,
            interior_color,
            use_log_scale,
            export_filter,
            export_supersample,
            export_scale,
            version,
            metadata_version,
            created_timestamp,
        },
    )
}

/// `seq.push(p)` where `cond` holds, `seq` otherwise.
pub open spec fn push_if(s: Chunks, cond: bool, p: (Seq<char>, Seq<char>)) -> Chunks {
    if cond {
        s.push(p)
    } else {
        s
    }
}

/// The text chunks that an export writes, in order: the fractal, its
/// parameters where it has any, the view, the iteration count, the colormap,
/// the colour settings (the period and the interior colour only where they
/// are enabled), the export settings, the versions and the creation time.
pub open spec fn png_metadata_chunks(
    fractal_name: Seq<char>,
    fractal_parameters: Option<Seq<char>>,
    center_x: Seq<char>,
    center_y: Seq<char>,
    zoom: Seq<char>,
    width: u32,
    height: u32,
    max_iterations: u32,
    colormap_name: Seq<char>,
    colormap_data: Seq<char>,
    use_period: bool,
    period: u32,
    use_interior_color: bool,
    interior_color: Seq<u8>,
    use_log_scale: bool,
    filter: FilterType,
    supersample: u32,
    scale: Seq<char>,
    version: Seq<char>,
    timestamp: u64,
) -> Chunks {
    let s0 = seq![(KEY_FRACTAL_TYPE@, fractal_name)];
    let s1 = push_if(
        s0,
        fractal_parameters is Some,
        (KEY_FRACTAL_PARAMETERS@, fractal_parameters.unwrap()),
    );
    let s2 = s1.push((KEY_CENTER_X@, center_x)).push((KEY_CENTER_Y@, center_y)).push(
        (KEY_ZOOM@, zoom),
    ).push((KEY_WIDTH@, decimal(width as nat))).push((KEY_HEIGHT@, decimal(height as nat))).push(
        (KEY_MAX_ITERATIONS@, decimal(max_iterations as nat)),
    ).push((KEY_COLORMAP_NAME@, colormap_name)).push((KEY_COLORMAP_DATA@, colormap_data)).push(
        (KEY_PERIOD_ENABLED@, bool_text(use_period)),
    );
    let s3 = push_if(s2, use_period, (KEY_PERIOD@, decimal(period as nat)));
    let s4 = s3.push((KEY_INTERIOR_ENABLED@, bool_text(use_interior_color)));
    let s5 = push_if(s4, use_interior_color, (KEY_INTERIOR_RGB@, json_rgb_text(interior_color)));
    s5.push((KEY_LOG_SCALE@, bool_text(use_log_scale))).push((KEY_FILTER@, filter.spec_name())).push(
        (KEY_SUPERSAMPLE@, decimal(supersample as nat)),
    ).push((KEY_SCALE@, scale)).push((KEY_VERSION@, version)).push(
        (KEY_METADATA_VERSION@, METADATA_VERSION@),
    ).push((KEY_TIMESTAMP@, decimal(timestamp as nat)))
}

fn u64_string(n: u64) -> (s: String)
    ensures
        s@ == decimal(n as nat),
{
    let v = decimal_chars(n);
    string_from_chars(&v)
}

fn bool_string(b: bool) -> (s: String)
    ensures
        s@ == bool_text(b),
{
    let v = bool_chars(b);
    string_from_chars(&v)
}

fn push_chunk(v: &mut Vec<(String, String)>, key: &str, text: String)
    ensures
        chunks_view(final(v)@) == chunks_view(old(v)@).push((key@, text@)),
{
    let k = key.to_owned();
    v.push((k, text));
    assert(chunks_view(v@) =~= chunks_view(old(v)@).push((key@, text@)));
}

/// The text chunks that an export embeds in its PNG, as `(keyword, text)`
/// pairs in writing order (see `png_metadata_chunks`).
///
/// Floating-point settings are passed as their text, the fractal parameters
/// and the colormap as their JSON documents (`fractal_parameters` is `None`
/// where the fractal has no parameters), and the creation time as seconds
/// since the Unix epoch.
pub fn create_png_metadata(
    fractal_name: &str,
    fractal_parameters: Option<String>,
    center_x: String,
    center_y: String,
    zoom: String,
    width: u32,
    height: u32,
    max_iterations: u32,
    colormap_name: String,
    colormap_data: String,
    use_period: bool,
    period: u32,
    use_interior_color: bool,
    interior_color: [u8; 3],
    use_log_scale: bool,
    filter_type: FilterType,
    supersample: u32,
    scale: String,
    version: &str,
    timestamp: u64,
) -> (r: Vec<(String, String)>)
    ensures
        chunks_view(r@) == png_metadata_chunks(
            fractal_name@,
            opt_view(fractal_parameters),
            center_x@,
            center_y@,
            zoom@,
            width,
            height,
            max_iterations,
            colormap_name@,
            colormap_data@,
            use_period,
            period,
            use_interior_color,
            interior_color@,
            use_log_scale,
            filter_type,
            supersample,
            scale@,
            version@,
            timestamp,
        ),
        use_interior_color ==> json_rgb_value(json_rgb_text(interior_color@)) == Some(
            interior_color@,
        ),
{
    let mut v: Vec<(String, String)> = Vec::new();
    assert(chunks_view(v@) =~= Seq::<(Seq<char>, Seq<char>)>::empty());
    push_chunk(&mut v, KEY_FRACTAL_TYPE, fractal_name.to_owned());
    assert(chunks_view(v@) =~= seq![(KEY_FRACTAL_TYPE@, fractal_name@)]);
    match fractal_parameters {
        Some(p) => push_chunk(&mut v, KEY_FRACTAL_PARAMETERS, p),
        None => {},
    }
    push_chunk(&mut v, KEY_CENTER_X, center_x);
    push_chunk(&mut v, KEY_CENTER_Y, center_y);
    push_chunk(&mut v, KEY_ZOOM, zoom);
    push_chunk(&mut v, KEY_WIDTH, u64_string(width as u64));
    push_chunk(&mut v, KEY_HEIGHT, u64_string(height as u64));
    push_chunk(&mut v, KEY_MAX_ITERATIONS, u64_string(max_iterations as u64));
    push_chunk(&mut v, KEY_COLORMAP_NAME, colormap_name);
    push_chunk(&mut v, KEY_COLORMAP_DATA, colormap_data);
    push_chunk(&mut v, KEY_PERIOD_ENABLED, bool_string(use_period));
    if use_period {
        push_chunk(&mut v, KEY_PERIOD, u64_string(period as u64));
    }
    push_chunk(&mut v, KEY_INTERIOR_ENABLED, bool_string(use_interior_color));
    if use_interior_color {
        push_chunk(&mut v, KEY_INTERIOR_RGB, json_rgb(interior_color));
    }
    push_chunk(&mut v, KEY_LOG_SCALE, bool_string(use_log_scale));
    push_chunk(&mut v, KEY_FILTER, filter_type.as_str().to_owned());
    push_chunk(&mut v, KEY_SUPERSAMPLE, u64_string(supersample as u64));
    push_chunk(&mut v, KEY_SCALE, scale);
    push_chunk(&mut v, KEY_VERSION, version.to_owned());
    push_chunk(&mut v, KEY_METADATA_VERSION, METADATA_VERSION.to_owned());
    push_chunk(&mut v, KEY_TIMESTAMP, u64_string(timestamp));
    v
}

pub broadcast proof fn lemma_find_text_push(s: Chunks, p: (Seq<char>, Seq<char>), key: Seq<char>)
    ensures
        #[trigger] find_text(s.push(p), key) == match find_text(s, key) {
            Some(t) => Some(t),
            None => if p.0 == key {
                Some(p.1)
            } else {
                None
            },
        },
    decreases s.len(),
{
    if s.len() == 0 {
        assert(s.push(p).drop_first() =~= Seq::<(Seq<char>, Seq<char>)>::empty());
    } else {
        assert(s.push(p).drop_first() =~= s.drop_first().push(p));
        lemma_find_text_push(s.drop_first(), p, key);
    }
}

/// Length and first character of each keyword; two keywords that agree in
/// both differ at a later position. So the keywords are pairwise distinct.
proof fn lemma_keywords()
    ensures
        KEY_FRACTAL_TYPE@.len() == 12 && KEY_FRACTAL_TYPE@[0] == 'F',
        KEY_FRACTAL_PARAMETERS@.len() == 18 && KEY_FRACTAL_PARAMETERS@[0] == 'F',
        KEY_CENTER_X@.len() == 12 && KEY_CENTER_X@[0] == 'V',
        KEY_CENTER_Y@.len() == 12 && KEY_CENTER_Y@[0] == 'V',
        KEY_ZOOM@.len() == 9 && KEY_ZOOM@[0] == 'V',
        KEY_WIDTH@.len() == 10 && KEY_WIDTH@[0] == 'V',
        KEY_HEIGHT@.len() == 11 && KEY_HEIGHT@[0] == 'V',
        KEY_MAX_ITERATIONS@.len() == 14 && KEY_MAX_ITERATIONS@[0] == 'M',
        KEY_COLORMAP_NAME@.len() == 13 && KEY_COLORMAP_NAME@[0] == 'C',
        KEY_COLORMAP_DATA@.len() == 13 && KEY_COLORMAP_DATA@[0] == 'C',
        KEY_PERIOD_ENABLED@.len() == 20 && KEY_PERIOD_ENABLED@[0] == 'C',
        KEY_PERIOD@.len() == 12 && KEY_PERIOD@[0] == 'C',
        KEY_INTERIOR_ENABLED@.len() == 22 && KEY_INTERIOR_ENABLED@[0] == 'I',
        KEY_INTERIOR_RGB@.len() == 18 && KEY_INTERIOR_RGB@[0] == 'I',
        KEY_LOG_SCALE@.len() == 17 && KEY_LOG_SCALE@[0] == 'L',
        KEY_FILTER@.len() == 13 && KEY_FILTER@[0] == 'E',
        KEY_SUPERSAMPLE@.len() == 18 && KEY_SUPERSAMPLE@[0] == 'E',
        KEY_SCALE@.len() == 12 && KEY_SCALE@[0] == 'E',
        KEY_VERSION@.len() == 23 && KEY_VERSION@[0] == 'F',
        KEY_METADATA_VERSION@.len() == 16 && KEY_METADATA_VERSION@[0] == 'M',
        KEY_TIMESTAMP@.len() == 17 && KEY_TIMESTAMP@[0] == 'C',
        KEY_CENTER_X@[11] != KEY_CENTER_Y@[11],
        KEY_COLORMAP_NAME@[9] != KEY_COLORMAP_DATA@[9],
{
    reveal_strlit("Fractal-Type");
    reveal_strlit("Fractal-Parameters");
    reveal_strlit("View-CenterX");
    reveal_strlit("View-CenterY");
    reveal_strlit("View-Zoom");
    reveal_strlit("View-Width");
    reveal_strlit("View-Height");
    reveal_strlit("Max-Iterations");
    reveal_strlit("Colormap-Name");
    reveal_strlit("Colormap-Data");
    reveal_strlit("Color-Period-Enabled");
    reveal_strlit("Color-Period");
    reveal_strlit("Interior-Color-Enabled");
    reveal_strlit("Interior-Color-RGB");
    reveal_strlit("Log-Scale-Enabled");
    reveal_strlit("Export-Filter");
    reveal_strlit("Export-Supersample");
    reveal_strlit("Export-Scale");
    reveal_strlit("Forma-Fractalis-Version");
    reveal_strlit("Metadata-Version");
    reveal_strlit("Created-Timestamp");
}

/// Reading back what an export wrote: the text chunks of an export describe
/// a render (they carry the versions, the fractal, a view whose values are
/// float literals, the iteration count and the colormap), and every setting
/// reads back as written, except that a disabled colour period reads back as
/// 256 and a disabled interior colour as black; the name of any fractal type
/// reads back as that type. The interior colour reads back as what
/// `serde_json` makes of the text it wrote for it.
#[verifier::rlimit(60)]
pub proof fn lemma_png_metadata_round_trip(
    fractal_name: Seq<char>,
    fractal_parameters: Option<Seq<char>>,
    center_x: Seq<char>,
    center_y: Seq<char>,
    zoom: Seq<char>,
    width: u32,
    height: u32,
    max_iterations: u32,
    colormap_name: Seq<char>,
    colormap_data: Seq<char>,
    use_period: bool,
    period: u32,
    use_interior_color: bool,
    interior_color: Seq<u8>,
    use_log_scale: bool,
    filter: FilterType,
    supersample: u32,
    scale: Seq<char>,
    version: Seq<char>,
    timestamp: u64,
    png_width: u32,
    png_height: u32,
    m: PngTextMetadata,
)
    requires
        is_float_literal(center_x),
        is_float_literal(center_y),
        is_float_literal(zoom),
    ensures
        ({
            let ch = png_metadata_chunks(fractal_name, fractal_parameters, center_x, center_y, zoom, width, height, max_iterations, colormap_name, colormap_data, use_period, period, use_interior_color, interior_color, use_log_scale, filter, supersample, scale, version, timestamp);
            &&& decode_error(ch) is None
            &&& m.decoded_from(ch, png_width, png_height) ==> {
                &&& m.fractal_type@ == fractal_name
                &&& forall|t: FractalType|
                    fractal_name == #[trigger] t.spec_name() ==> fractal_type_named(m.fractal_type@)
                        == Some(t)
                &&& opt_view(m.fractal_parameters) == fractal_parameters
                &&& m.center_x@ == center_x
                &&& m.center_y@ == center_y
                &&& m.zoom@ == zoom
                &&& m.width == width
                &&& m.height == height
                &&& m.max_iterations == max_iterations
                &&& m.colormap_name@ == colormap_name
                &&& opt_view(m.colormap_data) == Some(colormap_data)
                &&& m.use_period == use_period
                &&& m.period == if use_period {
                    period
                } else {
                    256
                }
                &&& m.use_interior_color == use_interior_color
                &&& m.interior_color@ == if use_interior_color {
                    match json_rgb_value(json_rgb_text(interior_color)) {
                        Some(v) => v,
                        None => seq![0u8, 0u8, 0u8],
                    }
                } else {
                    seq![0u8, 0u8, 0u8]
                }
                &&& m.use_log_scale == use_log_scale
                &&& m.export_filter@ == filter.spec_name()
                &&& m.export_supersample == supersample
                &&& opt_view(m.export_scale) == if is_float_literal(scale) {
                    Some(scale)
                } else {
                    None
                }
                &&& opt_view(m.version) == Some(version)
                &&& opt_view(m.metadata_version) == Some(METADATA_VERSION@)
                &&& m.created_timestamp == Some(timestamp)
            }
        }),
{
    broadcast use lemma_find_text_push;

    lemma_keywords();
    lemma_parse_decimal_of_decimal(width as nat, u32::MAX as nat);
    lemma_parse_decimal_of_decimal(height as nat, u32::MAX as nat);
    lemma_parse_decimal_of_decimal(max_iterations as nat, u32::MAX as nat);
    lemma_parse_decimal_of_decimal(period as nat, u32::MAX as nat);
    lemma_parse_decimal_of_decimal(supersample as nat, u32::MAX as nat);
    lemma_parse_decimal_of_decimal(timestamp as nat, u64::MAX as nat);
    lemma_parse_bool_text(use_period);
    lemma_parse_bool_text(use_interior_color);
    lemma_parse_bool_text(use_log_scale);
    let ch = png_metadata_chunks(fractal_name, fractal_parameters, center_x, center_y, zoom, width, height, max_iterations, colormap_name, colormap_data, use_period, period, use_interior_color, interior_color, use_log_scale, filter, supersample, scale, version, timestamp);
    if m.decoded_from(ch, png_width, png_height) {
        assert(opt_nat(m.created_timestamp) == Some(timestamp as nat));
        assert forall|t: FractalType| fractal_name == #[trigger] t.spec_name() implies
            fractal_type_named(m.fractal_type@) == Some(t) by {
            lemma_fractal_type_name_round_trip(t);
        }
    }
}

/// Whether `s` is the text `lit`.
fn text_is(s: &str, lit: &str) -> (r: bool)
    ensures
        r == (s@ == lit@),
{
    s.to_owned() == lit.to_owned()
}

/// The fractal type that a metadata name stands for: the name of each type
/// (as saved settings write it), and the fractal names that exports write,
/// which add "Mandelbrot Set" and "Julia Set".
pub open spec fn fractal_type_named(s: Seq<char>) -> Option<FractalType> {
    if s == "Mandelbrot Set"@ {
        Some(FractalType::Mandelbrot)
    } else if s == "Julia Set"@ {
        Some(FractalType::Julia)
    } else if s == "Mandelbrot"@ {
        Some(FractalType::Mandelbrot)
    } else if s == "Julia"@ {
        Some(FractalType::Julia)
    } else if s == "Burning Ship"@ {
        Some(FractalType::BurningShip)
    } else if s == "Tippets Mandelbrot"@ {
        Some(FractalType::TippetsMandelbrot)
    } else if s == "Multifractal-Julia"@ {
        Some(FractalType::MultifractalJulia)
    } else if s == "Cactus"@ {
        Some(FractalType::Cactus)
    } else if s == "Marek Dragon"@ {
        Some(FractalType::MarekDragon)
    } else if s == "Tetration"@ {
        Some(FractalType::Tetration)
    } else if s == "Lemon"@ {
        Some(FractalType::Lemon)
    } else if s == "Insideout Dragon"@ {
        Some(FractalType::InsideoutDragon)
    } else if s == "Zubieta"@ {
        Some(FractalType::Zubieta)
    } else if s == "Sin Julia"@ {
        Some(FractalType::SinJulia)
    } else {
        None
    }
}

pub const ERR_UNKNOWN_FRACTAL_TYPE: &'static str = "Unknown fractal type: ";

/// Converts the fractal type stored in metadata to a `FractalType`.
pub fn parse_fractal_type(name: &str) -> (r: Result<FractalType, String>)
    ensures
        match r {
            Ok(t) => fractal_type_named(name@) == Some(t),
            Err(e) => fractal_type_named(name@) is None && e@ == ERR_UNKNOWN_FRACTAL_TYPE@ + name@,
        },
{
    if text_is(name, "Mandelbrot Set") {
        Ok(FractalType::Mandelbrot)
    } else if text_is(name, "Julia Set") {
        Ok(FractalType::Julia)
    } else if text_is(name, "Mandelbrot") {
        Ok(FractalType::Mandelbrot)
    } else if text_is(name, "Julia") {
        Ok(FractalType::Julia)
    } else if text_is(name, "Burning Ship") {
        Ok(FractalType::BurningShip)
    } else if text_is(name, "Tippets Mandelbrot") {
        Ok(FractalType::TippetsMandelbrot)
    } else if text_is(name, "Multifractal-Julia") {
        Ok(FractalType::MultifractalJulia)
    } else if text_is(name, "Cactus") {
        Ok(FractalType::Cactus)
    } else if text_is(name, "Marek Dragon") {
        Ok(FractalType::MarekDragon)
    } else if text_is(name, "Tetration") {
        Ok(FractalType::Tetration)
    } else if text_is(name, "Lemon") {
        Ok(FractalType::Lemon)
    } else if text_is(name, "Insideout Dragon") {
        Ok(FractalType::InsideoutDragon)
    } else if text_is(name, "Zubieta") {
        Ok(FractalType::Zubieta)
    } else if text_is(name, "Sin Julia") {
        Ok(FractalType::SinJulia)
    } else {
        let mut msg = ERR_UNKNOWN_FRACTAL_TYPE.to_owned();
        msg.append(name);
        Err(msg)
    }
}

/// The filter that a metadata name stands for; unknown names mean no filter.
pub open spec fn filter_named(s: Seq<char>) -> FilterType {
    if s == "None"@ {
        FilterType::NoFilter
    } else if s == "Lanczos3"@ {
        FilterType::Lanczos3
    } else if s == "Gaussian"@ {
        FilterType::Gaussian
    } else {
        FilterType::NoFilter
    }
}

/// Converts the export filter stored in metadata to a `FilterType`.
pub fn parse_filter_type(name: &str) -> (r: FilterType)
    ensures
        r == filter_named(name@),
{
    if text_is(name, "None") {
        FilterType::NoFilter
    } else if text_is(name, "Lanczos3") {
        FilterType::Lanczos3
    } else if text_is(name, "Gaussian") {
        FilterType::Gaussian
    } else {
        FilterType::NoFilter
    }
}

/// A filter's name reads back as that filter.
pub proof fn lemma_filter_name_round_trip(f: FilterType)
    ensures
        filter_named(f.spec_name()) == f,
{
    reveal_strlit("None");
    reveal_strlit("Lanczos3");
    reveal_strlit("Gaussian");
    assert("Lanczos3"@[0] != "Gaussian"@[0]);
}

/// Fractal names read back as their fractal type: the name of every type,
/// and the names that exports of the fractals write.
pub proof fn lemma_fractal_type_name_round_trip(t: FractalType)
    ensures
        fractal_type_named(t.spec_name()) == Some(t),
        fractal_type_named(t.spec_instance_name()) == Some(t),
        fractal_type_named("Mandelbrot Set"@) == Some(FractalType::Mandelbrot),
        fractal_type_named("Julia Set"@) == Some(FractalType::Julia),
{
    lemma_fractal_type_name_texts();
    reveal_strlit("Mandelbrot Set");
    reveal_strlit("Julia Set");
    assert("Mandelbrot Set"@.len() == 14 && "Mandelbrot Set"@[0] == 'M');
    assert("Julia Set"@.len() == 9 && "Julia Set"@[0] == 'J');
}

/// `str::to_lowercase`: the Unicode lower case of a text.
pub uninterp spec fn lowercase_text(s: Seq<char>) -> Seq<char>;

/// `str::to_lowercase`. Its result is named `lowercase_text`; nothing more
/// is stated.
#[verifier::external_body]
fn to_lowercase(s: &str) -> (r: String)
    ensures
        r@ == lowercase_text(s@),
{
    s.to_lowercase()
}

/// The supersample factor an export renders at: 1 without a filter, and at
/// least 1 with one.
pub open spec fn effective_supersample(filter: FilterType, supersample: u32) -> u32 {
    if filter == FilterType::NoFilter {
        1
    } else if supersample >= 1 {
        supersample
    } else {
        1
    }
}

/// The supersample factor an export renders at: 1 without a filter; with a
/// filter, the factor asked for, raised to 1 where it is 0 and never lowered.
pub fn export_supersample(filter: FilterType, supersample: u32) -> (r: u32)
    ensures
        r == effective_supersample(filter, supersample),
        filter == FilterType::NoFilter ==> r == 1,
        filter != FilterType::NoFilter && supersample >= 1 ==> r == supersample,
        filter != FilterType::NoFilter && supersample == 0 ==> r == 1,
{
    if filter == FilterType::NoFilter {
        1
    } else if supersample >= 1 {
        supersample
    } else {
        1
    }
}

/// `_{supersample}x{filter}` for a filtered, supersampled export; empty otherwise.
pub open spec fn filter_suffix(filter: FilterType, supersample: u32) -> Seq<char> {
    if filter != FilterType::NoFilter && supersample > 1 {
        seq!['_'] + decimal(supersample as nat) + seq!['x'] + filter.spec_name()
    } else {
        Seq::empty()
    }
}

/// Spaces replaced by underscores.
pub open spec fn underscored(s: Seq<char>) -> Seq<char> {
    s.map_values(|c: char| if c == ' ' { '_' } else { c })
}

/// The file name of an export:
/// `{fractal name, lower case, spaces as underscores}_{w}x{h}{suffix}{timestamp}.png`,
/// where the suffix names the filter and supersample factor actually used.
pub open spec fn export_file_name_text(
    fractal_name: Seq<char>,
    target_width: u32,
    target_height: u32,
    filter: FilterType,
    supersample: u32,
    timestamp: u64,
) -> Seq<char> {
    let ss = effective_supersample(filter, supersample);
    underscored(lowercase_text(fractal_name)) + seq!['_'] + decimal(target_width as nat) + seq![
        'x',
    ] + decimal(target_height as nat) + filter_suffix(filter, ss) + decimal(timestamp as nat)
        + seq!['.', 'p', 'n', 'g']
}

/// The factor an export renders at: with a filter, exactly the factor asked for
/// whenever that is at least 1 (only 0 is raised, to 1); without a filter, 1.
pub proof fn lemma_effective_supersample(filter: FilterType, supersample: u32)
    ensures
        filter != FilterType::NoFilter && supersample >= 1 ==> effective_supersample(
            filter,
            supersample,
        ) == supersample,
        filter != FilterType::NoFilter && supersample == 0 ==> effective_supersample(
            filter,
            supersample,
        ) == 1,
        filter == FilterType::NoFilter ==> effective_supersample(filter, supersample) == 1,
        effective_supersample(filter, supersample) >= 1,
{
}

/// An export's file name is the lower-cased fractal name with spaces as
/// underscores, `_`, the target width, `x`, the target height, then, for a
/// filtered export supersampled by `s > 1`, `_{s}x{filter name}`, then the
/// timestamp and `.png`. Without a filter, or at a factor of at most 1, no
/// filter part is written.
pub proof fn lemma_export_file_name_parts(
    fractal_name: Seq<char>,
    target_width: u32,
    target_height: u32,
    filter: FilterType,
    supersample: u32,
    timestamp: u64,
)
    ensures
        filter != FilterType::NoFilter && supersample > 1 ==> export_file_name_text(
            fractal_name,
            target_width,
            target_height,
            filter,
            supersample,
            timestamp,
        ) == underscored(lowercase_text(fractal_name)) + seq!['_'] + decimal(
            target_width as nat,
        ) + seq!['x'] + decimal(target_height as nat) + seq!['_'] + decimal(supersample as nat)
            + seq!['x'] + filter.spec_name() + decimal(timestamp as nat) + seq![
            '.',
            'p',
            'n',
            'g',
        ],
        filter == FilterType::NoFilter || supersample <= 1 ==> export_file_name_text(
            fractal_name,
            target_width,
            target_height,
            filter,
            supersample,
            timestamp,
        ) == underscored(lowercase_text(fractal_name)) + seq!['_'] + decimal(
            target_width as nat,
        ) + seq!['x'] + decimal(target_height as nat) + decimal(timestamp as nat) + seq![
            '.',
            'p',
            'n',
            'g',
        ],
{
    let head = underscored(lowercase_text(fractal_name)) + seq!['_'] + decimal(
        target_width as nat,
    ) + seq!['x'] + decimal(target_height as nat);
    let tail = decimal(timestamp as nat) + seq!['.', 'p', 'n', 'g'];
    let ss = effective_supersample(filter, supersample);
    if filter != FilterType::NoFilter && supersample > 1 {
        assert(ss == supersample);
        let suffix = seq!['_'] + decimal(supersample as nat) + seq!['x'] + filter.spec_name();
        assert(filter_suffix(filter, ss) == suffix);
        assert(export_file_name_text(
            fractal_name,
            target_width,
            target_height,
            filter,
            supersample,
            timestamp,
        ) =~= head + suffix + tail);
        assert(head + suffix + tail =~= underscored(lowercase_text(fractal_name)) + seq!['_']
            + decimal(target_width as nat) + seq!['x'] + decimal(target_height as nat) + seq!['_']
            + decimal(supersample as nat) + seq!['x'] + filter.spec_name() + decimal(
            timestamp as nat,
        ) + seq!['.', 'p', 'n', 'g']);
    } else {
        assert(filter_suffix(filter, ss) =~= Seq::<char>::empty());
        assert(export_file_name_text(
            fractal_name,
            target_width,
            target_height,
            filter,
            supersample,
            timestamp,
        ) =~= head + tail);
        assert(head + tail =~= underscored(lowercase_text(fractal_name)) + seq!['_'] + decimal(
            target_width as nat,
        ) + seq!['x'] + decimal(target_height as nat) + decimal(timestamp as nat) + seq![
            '.',
            'p',
            'n',
            'g',
        ]);
    }
}

fn append_chars(v: &mut Vec<char>, w: &Vec<char>)
    ensures
        final(v)@ == old(v)@ + w@,
{
    let mut i: usize = 0;
    let ghost v0 = v@;
    while i < w.len()
        invariant
            i <= w.len(),
            v@ == v0 + w@.take(i as int),
        decreases w.len() - i,
    {
        v.push(w[i]);
        i = i + 1;
        assert(v@ =~= v0 + w@.take(i as int));
    }
    assert(w@.take(i as int) =~= w@);
}

/// The file name under which an export of `fractal_name` at
/// `target_width` by `target_height` is saved (see `export_file_name_text`).
pub fn export_file_name(
    fractal_name: &str,
    target_width: u32,
    target_height: u32,
    filter: FilterType,
    supersample: u32,
    timestamp: u64,
) -> (r: String)
    ensures
        r@ == export_file_name_text(
            fractal_name@,
            target_width,
            target_height,
            filter,
            supersample,
            timestamp,
        ),
{
    let ss = export_supersample(filter, supersample);
    let lowered = to_lowercase(fractal_name);
    let src = chars_of(lowered.as_str());
    let mut out: Vec<char> = Vec::new();
    let mut i: usize = 0;
    while i < src.len()
        invariant
            i <= src.len(),
            out@ == underscored(src@.take(i as int)),
        decreases src.len() - i,
    {
        let c = src[i];
        out.push(if c == ' ' { '_' } else { c });
        i = i + 1;
        assert(out@ =~= underscored(src@.take(i as int)));
    }
    assert(src@.take(i as int) =~= src@);
    out.push('_');
    append_chars(&mut out, &decimal_chars(target_width as u64));
    out.push('x');
    append_chars(&mut out, &decimal_chars(target_height as u64));
    if filter != FilterType::NoFilter && ss > 1 {
        out.push('_');
        append_chars(&mut out, &decimal_chars(ss as u64));
        out.push('x');
        let name = chars_of(filter.as_str());
        append_chars(&mut out, &name);
    }
    append_chars(&mut out, &decimal_chars(timestamp));
    out.push('.');
    out.push('p');
    out.push('n');
    out.push('g');
    assert(out@ =~= export_file_name_text(
        fractal_name@,
        target_width,
        target_height,
        filter,
        supersample,
        timestamp,
    ));
    string_from_chars(&out)
}

/// The kind of file that settings are loaded from.
#[derive(Debug, Clone, Copy, PartialEq, Eq, Structural)]
pub enum SettingsFile {
    /// A PNG export carrying its settings in text chunks.
    Png,
    /// A JSON settings file.
    Json,
}

pub const ERR_UNSUPPORTED_EXTENSION: &'static str = "Unsupported file extension: ";

/// Which loader a settings file goes to, by its extension in any case:
/// `png` or `json`; any other extension is refused.
pub fn settings_file_kind(extension: &str) -> (r: Result<SettingsFile, String>)
    ensures
        match r {
            Ok(SettingsFile::Png) => lowercase_text(extension@) == "png"@,
            Ok(SettingsFile::Json) => lowercase_text(extension@) == "json"@,
            Err(e) => lowercase_text(extension@) != "png"@ && lowercase_text(extension@)
                != "json"@ && e@ == ERR_UNSUPPORTED_EXTENSION@ + extension@,
        },
{
    let lowered = to_lowercase(extension);
    if text_is(lowered.as_str(), "png") {
        Ok(SettingsFile::Png)
    } else if text_is(lowered.as_str(), "json") {
        Ok(SettingsFile::Json)
    } else {
        let mut msg = ERR_UNSUPPORTED_EXTENSION.to_owned();
        msg.append(extension);
        Err(msg)
    }
}

} // verus!
