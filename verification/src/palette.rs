use vstd::prelude::*;
use vstd::string::StringSliceAdditionalSpecFns;

use crate::color::{Color, LogicalColor};

verus! {

/// A named set of four screen colors, lightest first.
pub struct Palette {
    pub name: String,
    pub colors: [(u8, u8, u8); 4],
}

/// The value of hexadecimal digit `b` (either case).
pub open spec fn hex_digit(b: u8) -> Option<u8> {
    if 0x30 <= b <= 0x39 {
        Some((b - 0x30) as u8)
    } else if 0x41 <= b <= 0x46 {
        Some((b - 0x41 + 10) as u8)
    } else if 0x61 <= b <= 0x66 {
        Some((b - 0x61 + 10) as u8)
    } else {
        None
    }
}

/// The byte written by two characters in base 16: two digits, or a plus sign and one digit.
pub open spec fn hex_byte(b0: u8, b1: u8) -> Option<u8> {
    match (hex_digit(b0), hex_digit(b1)) {
        (Some(h), Some(l)) => Some((h * 16 + l) as u8),
        _ => if b0 == 0x2B { hex_digit(b1) } else { None },
    }
}

/// Whether a seven-byte color code (`#RRGGBB`, the first character unchecked) has three
/// readable components; codes of another length need none.
pub open spec fn hex_readable(bytes: Seq<u8>) -> bool {
    bytes.len() == 7 ==> {
        &&& hex_byte(bytes[1], bytes[2]) is Some
        &&& hex_byte(bytes[3], bytes[4]) is Some
        &&& hex_byte(bytes[5], bytes[6]) is Some
    }
}

/// The color that a seven-byte code names.
pub open spec fn hex_color(bytes: Seq<u8>) -> (u8, u8, u8) {
    (hex_byte(bytes[1], bytes[2])->0, hex_byte(bytes[3], bytes[4])->0, hex_byte(bytes[5], bytes[6])->0)
}

/// The character (as a byte) of hexadecimal digit `d` (below 16), in upper or lower case.
pub open spec fn hex_char(d: u8, upper: bool) -> u8 {
    if d < 10 {
        (0x30 + d) as u8
    } else if upper {
        (0x41 + d - 10) as u8
    } else {
        (0x61 + d - 10) as u8
    }
}

/// The seven-byte code `#RRGGBB` of color (`r`, `g`, `b`), two digits per component, in
/// upper or lower case.
pub open spec fn hex_code(r: u8, g: u8, b: u8, upper: bool) -> Seq<u8> {
    seq![
        0x23u8,
        hex_char(r / 16, upper),
        hex_char(r % 16, upper),
        hex_char(g / 16, upper),
        hex_char(g % 16, upper),
        hex_char(b / 16, upper),
        hex_char(b % 16, upper),
    ]
}

/// Two digits written for byte `v` read back as `v`.
proof fn lemma_hex_byte_of_digits(v: u8, upper: bool)
    ensures
        hex_byte(hex_char(v / 16, upper), hex_char(v % 16, upper)) == Some(v),
{
    assert(hex_digit(hex_char(v / 16, upper)) == Some(v / 16));
    assert(hex_digit(hex_char(v % 16, upper)) == Some(v % 16));
}

/// A color written as `#RRGGBB` (two digits per component, either case) reads back as the
/// same color: the code is seven bytes long, every component is readable, and the color it
/// names is (`r`, `g`, `b`).
pub proof fn lemma_hex_round_trip(r: u8, g: u8, b: u8, upper: bool)
    ensures
        hex_code(r, g, b, upper).len() == 7,
        hex_readable(hex_code(r, g, b, upper)),
        hex_color(hex_code(r, g, b, upper)) == (r, g, b),
{
    lemma_hex_byte_of_digits(r, upper);
    lemma_hex_byte_of_digits(g, upper);
    lemma_hex_byte_of_digits(b, upper);
    let code = hex_code(r, g, b, upper);
    assert(code[1] == hex_char(r / 16, upper) && code[2] == hex_char(r % 16, upper));
    assert(code[3] == hex_char(g / 16, upper) && code[4] == hex_char(g % 16, upper));
    assert(code[5] == hex_char(b / 16, upper) && code[6] == hex_char(b % 16, upper));
}

/// Returns the value of hexadecimal digit `b`.
fn hex_digit_value(b: u8) -> (r: Option<u8>)
    ensures
        r == hex_digit(b),
{
    if 0x30 <= b && b <= 0x39 {
        Some(b - 0x30)
    } else if 0x41 <= b && b <= 0x46 {
        Some(b - 0x41 + 10)
    } else if 0x61 <= b && b <= 0x66 {
        Some(b - 0x61 + 10)
    } else {
        None
    }
}

/// Returns the byte that two base-16 characters write.
fn parse_hex_byte(b0: u8, b1: u8) -> (r: Option<u8>)
    ensures
        r == hex_byte(b0, b1),
{
    match (hex_digit_value(b0), hex_digit_value(b1)) {
        (Some(h), Some(l)) => Some(h * 16 + l),
        _ => if b0 == 0x2B { hex_digit_value(b1) } else { None },
    }
}

/// Returns whether `hex` can be given to `hex_to_rgb`.
pub fn is_readable_hex(hex: &str) -> (b: bool)
    ensures
        b == hex_readable(hex.spec_bytes()),
{
    let bytes = hex.as_bytes();
    if bytes.len() != 7 {
        return true;
    }
    parse_hex_byte(bytes[1], bytes[2]).is_some() && parse_hex_byte(bytes[3], bytes[4]).is_some()
        && parse_hex_byte(bytes[5], bytes[6]).is_some()
}

/// Reads a `#RRGGBB` color code: `None` unless the code is seven bytes long.
pub fn hex_to_rgb(hex: &str) -> (r: Option<(u8, u8, u8)>)
    requires
        hex_readable(hex.spec_bytes()),
    ensures
        r == (if hex.spec_bytes().len() == 7 { Some(hex_color(hex.spec_bytes())) } else { None }),
{
    let bytes = hex.as_bytes();
    if bytes.len() != 7 {
        return None;
    }
    let r = parse_hex_byte(bytes[1], bytes[2]).unwrap();
    let g = parse_hex_byte(bytes[3], bytes[4]).unwrap();
    let b = parse_hex_byte(bytes[5], bytes[6]).unwrap();
    Some((r, g, b))
}

/// The display name of a palette key: underscores read as spaces.
pub open spec fn display_name(key: Seq<char>) -> Seq<char> {
    key.map_values(|c: char| if c == '_' { ' ' } else { c })
}

/// `str::replace` with the one-character pattern `"_"` and the replacement `" "`: std
/// documents that every match of the pattern is replaced, so each underscore becomes a space
/// and every other character stays.
#[verifier::external_body]
fn underscores_to_spaces(key: &str) -> (r: String)
    ensures
        r@ == display_name(key@),
{
    key.replace("_", " ")
}

/// The colors a palette entry falls back to, one per shade.
pub open spec fn default_color(i: int) -> (u8, u8, u8) {
    if i == 0 { (0, 0, 0) } else if i == 1 { (211, 211, 211) } else if i == 2 { (90, 90, 90) } else { (0, 0, 0) }
}

/// The shade `i` that a palette entry with color codes `codes` gets: the color its code names,
/// or the fallback when the code is not seven bytes long.
pub open spec fn entry_color(codes: Seq<String>, i: int) -> (u8, u8, u8) {
    let bytes = vstd::utf8::encode_utf8(codes[i]@);
    if bytes.len() == 7 { hex_color(bytes) } else { default_color(i) }
}

/// Builds the palette with key `name` and color codes `palette_colors` (the first four are
/// used, lightest first).
pub fn palette_from_colors(name: &str, palette_colors: &Vec<String>) -> (p: Palette)
    requires
        palette_colors@.len() >= 4,
        forall|i: int| 0 <= i < 4 ==> hex_readable(vstd::utf8::encode_utf8(#[trigger] palette_colors@[i]@)),
    ensures
        p.name@ == display_name(name@),
        forall|i: int| 0 <= i < 4 ==> #[trigger] p.colors[i] == entry_color(palette_colors@, i),
{
    let color0 = match hex_to_rgb(palette_colors[0].as_str()) {
        Some(c) => c,
        None => (0, 0, 0),
    };
    let color1 = match hex_to_rgb(palette_colors[1].as_str()) {
        Some(c) => c,
        None => (211, 211, 211),
    };
    let color2 = match hex_to_rgb(palette_colors[2].as_str()) {
        Some(c) => c,
        None => (90, 90, 90),
    };
    let color3 = match hex_to_rgb(palette_colors[3].as_str()) {
        Some(c) => c,
        None => (0, 0, 0),
    };
    Palette { name: underscores_to_spaces(name), colors: [color0, color1, color2, color3] }
}

/// The index of the first of `names` equal to `selected`, if any.
pub open spec fn first_match(names: Seq<String>, selected: Seq<char>) -> Option<int> {
    if exists|i: int| 0 <= i < names.len() && names[i]@ == selected {
        Some(choose|i: int| 0 <= i < names.len() && names[i]@ == selected
            && forall|j: int| 0 <= j < i ==> names[j]@ != selected)
    } else {
        None
    }
}

/// Where entry `k` of the reordered list comes from: the list turns so that the first entry
/// named `selected` leads, and stays as it is when none is.
pub open spec fn rotation_source(names: Seq<String>, selected: Seq<char>, k: int) -> int {
    match first_match(names, selected) {
        Some(i) => (k + i) % (names.len() as int),
        None => k,
    }
}

/// Whether palette `p` has the name and colors of `q`.
pub open spec fn same_palette(p: Palette, q: Palette) -> bool {
    p.name@ == q.name@ && p.colors == q.colors
}

/// Returns the palettes with the one whose key is `selected` first, the others following in
/// their order (the list is rotated); unchanged when no key matches. `names[i]` is the key of
/// `palettes[i]`.
pub fn order_palettes(names: &Vec<String>, palettes: Vec<Palette>, selected: &String) -> (r: Vec<Palette>)
    requires
        names@.len() == palettes@.len(),
    ensures
        r@.len() == palettes@.len(),
        forall|k: int| 0 <= k < r@.len() ==> same_palette(#[trigger] r@[k], palettes@[rotation_source(names@, selected@, k)]),
{
    let n = names.len();
    let mut index: usize = 0;
    while index < n && !(names[index] == *selected)
        invariant
            n == names@.len(),
            index <= n,
            forall|j: int| 0 <= j < index ==> names@[j]@ != selected@,
        decreases n - index,
    {
        index += 1;
    }
    if index == n {
        proof {
            assert(!exists|i: int| 0 <= i < names@.len() && names@[i]@ == selected@);
        }
        let mut out: Vec<Palette> = Vec::new();
        let mut k: usize = 0;
        while k < n
            invariant
                n == palettes@.len(),
                k <= n,
                out@.len() == k,
                forall|m: int| 0 <= m < k ==> #[trigger] same_palette(out@[m], palettes@[m]),
            decreases n - k,
        {
            let p = &palettes[k];
            out.push(Palette { name: p.name.clone(), colors: p.colors });
            k += 1;
        }
        return out;
    }
    proof {
        let i = first_match(names@, selected@)->0;
        assert(names@[index as int]@ == selected@);
        assert(i == index);
    }
    let mut out: Vec<Palette> = Vec::new();
    let mut k: usize = 0;
    while k < n
        invariant
            n == palettes@.len(),
            index < n,
            k <= n,
            out@.len() == k,
            forall|m: int| 0 <= m < k ==> #[trigger] same_palette(out@[m], palettes@[(m + index) % (n as int)]),
        decreases n - k,
    {
        let j = if k < n - index { index + k } else { k - (n - index) };
        proof {
            if k < n - index {
                vstd::arithmetic::div_mod::lemma_small_mod((k + index) as nat, n as nat);
            } else {
                vstd::arithmetic::div_mod::lemma_small_mod((k + index - n) as nat, n as nat);
                vstd::arithmetic::div_mod::lemma_mod_add_multiples_vanish(k + index - n, n as int);
            }
        }
        assert(j == (k + index) % (n as int));
        let p = &palettes[j];
        out.push(Palette { name: p.name.clone(), colors: p.colors });
        k += 1;
    }
    out
}


/// A five-bit color channel widened to eight bits (the top bits repeat in the low bits).
pub open spec fn expand5(c: u16) -> u8 {
    (c * 8 + c / 4) as u8
}

/// The screen color of pixel `color` with palette `palette`: a shade takes the palette's
/// color, a Color Game Boy value (five bits per channel, red lowest) is widened.
pub open spec fn rgb_of(color: Color, palette: Palette) -> (u8, u8, u8) {
    match color {
        Color::Logical(LogicalColor::White) => palette.colors[0],
        Color::Logical(LogicalColor::LightGray) => palette.colors[1],
        Color::Logical(LogicalColor::DarkGray) => palette.colors[2],
        Color::Logical(LogicalColor::Black) => palette.colors[3],
        Color::RGB(rgb) => (expand5(rgb % 32), expand5((rgb / 32) % 32), expand5((rgb / 1024) % 32)),
    }
}

/// Returns the screen color of `color` with palette `palette_index` of `palettes`.
pub fn get_color(palettes: &Vec<Palette>, palette_index: usize, color: &Color) -> (c: (u8, u8, u8))
    requires
        palette_index < palettes@.len(),
    ensures
        c == rgb_of(*color, palettes@[palette_index as int]),
{
    let i = palette_index;
    match color {
        Color::Logical(logical) => match logical {
            LogicalColor::White => palettes[i].colors[0],
            LogicalColor::LightGray => palettes[i].colors[1],
            LogicalColor::DarkGray => palettes[i].colors[2],
            LogicalColor::Black => palettes[i].colors[3],
        },
        Color::RGB(rgb) => {
            let rgb = *rgb;
            assert({
                &&& (rgb & 0x1F) == rgb % 32
                &&& (rgb & 0x3E0) >> 5 == (rgb / 32) % 32
                &&& (rgb & 0x7C00) >> 10 == (rgb / 1024) % 32
            }) by (bit_vector);
            let r_5bit = (rgb & 0x1F) as u8;
            let g_5bit = ((rgb & 0x3E0) >> 5) as u8;
            let b_5bit = ((rgb & 0x7C00) >> 10) as u8;
            (widen5(r_5bit), widen5(g_5bit), widen5(b_5bit))
        },
    }
}

/// Widens a five-bit channel to eight bits.
fn widen5(c: u8) -> (r: u8)
    requires
        c < 32,
    ensures
        r == expand5(c as u16),
{
    assert((c << 3) | (c >> 2) == (c * 8 + c / 4) as u8) by (bit_vector)
        requires
            c < 32;
    (c << 3) | (c >> 2)
}

} // verus!
