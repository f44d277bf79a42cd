//! The sprite of a style: where its files are, where an icon lies, and icons
//! as data URLs.

use crate::error::{invalid_json, ErrorView, LegendError};
use crate::json::{member, Json, JsonView};
use crate::number::{read_unsigned, unsigned_of};
use crate::text::{join2, join3, join5};
use base64::engine::general_purpose::STANDARD;
use base64::Engine;
use vstd::prelude::*;

verus! {

/// The text that the standard base64 alphabet, with padding, writes for
/// the given bytes.
pub uninterp spec fn base64_text(bytes: Seq<u8>) -> Seq<char>;

/// How many bytes can be written in base64 at most: the text takes four
/// characters for every three bytes, and its length is a `usize`.
pub open spec fn fits_base64(len: int) -> bool {
    len / 3 <= (usize::MAX - 4) / 4
}

/// `base64::Engine::encode` on the engine `general_purpose::STANDARD`:
/// the result is the base64 text of the bytes, the same for the same
/// bytes. The call panics where the length of the text overflows, which
/// the precondition leaves out.
#[verifier::external_body]
fn encode_base64(bytes: &[u8]) -> (text: String)
    requires
        fits_base64(bytes@.len() as int),
    ensures
        text@ == base64_text(bytes@),
{
    STANDARD.encode(bytes)
}

/// Where an icon lies on the sheet of a sprite.
#[derive(Clone, Copy, Debug, PartialEq, Eq)]
pub struct IconRect {
    pub x: u32,
    pub y: u32,
    pub width: u32,
    pub height: u32,
}

/// The number under `field` in the entry of an icon: a natural number
/// that fits in 64 bits, cut down to its low 32 bits.
pub open spec fn icon_number(icon: JsonView, field: Seq<char>) -> Option<int> {
    match member(icon, field) {
        Some(JsonView::Number(n)) => match unsigned_of(n.literal) {
            Some(value) => if value <= u64::MAX {
                Some((value % 0x1_0000_0000) as int)
            } else {
                None
            },
            None => None,
        },
        _ => None,
    }
}

/// The error for an icon whose entry lacks a usable number.
pub open spec fn bad_icon_field(field: Seq<char>, name: Seq<char>) -> ErrorView {
    invalid_json("Invalid '"@ + field + "' field for icon '"@ + name + "'"@)
}

/// Where the named icon lies, by the index of the sprite: the `x`, `y`,
/// `width` and `height` of the entry under its name.
pub open spec fn icon_rect_of(sprite: JsonView, name: Seq<char>) -> Result<
    (int, int, int, int),
    ErrorView,
> {
    match member(sprite, name) {
        None => Err(invalid_json("Icon '"@ + name + "' not found in sprite JSON"@)),
        Some(icon) => match icon_number(icon, "x"@) {
            None => Err(bad_icon_field("x"@, name)),
            Some(x) => match icon_number(icon, "y"@) {
                None => Err(bad_icon_field("y"@, name)),
                Some(y) => match icon_number(icon, "width"@) {
                    None => Err(bad_icon_field("width"@, name)),
                    Some(width) => match icon_number(icon, "height"@) {
                        None => Err(bad_icon_field("height"@, name)),
                        Some(height) => Ok((x, y, width, height)),
                    },
                },
            },
        },
    }
}

/// Reads the number under `field` in the entry of an icon.
fn read_icon_number(icon: &Json, field: &str, name: &str) -> (r: Result<u32, LegendError>)
    ensures
        match r {
            Ok(value) => icon_number(icon@, field@) == Some(value as int),
            Err(e) => icon_number(icon@, field@) is None && e@ == bad_icon_field(field@, name@),
        },
{
    let number = match icon.get(field) {
        Some(value) => value.as_number(),
        None => None,
    };
    let read = match number {
        Some(n) => read_unsigned(n.literal.as_str()),
        None => None,
    };
    match read {
        Some(value) => Ok((value % 0x1_0000_0000) as u32),
        None => Err(
            LegendError::InvalidJson(join5("Invalid '", field, "' field for icon '", name, "'")),
        ),
    }
}

/// Looks up where the named icon lies on the sheet of a sprite.
pub fn get_icon_rect(sprite_json: &Json, icon_name: &str) -> (r: Result<IconRect, LegendError>)
    ensures
        match r {
            Ok(rect) => icon_rect_of(sprite_json@, icon_name@) == Ok::<
                (int, int, int, int),
                ErrorView,
            >((rect.x as int, rect.y as int, rect.width as int, rect.height as int)),
            Err(e) => icon_rect_of(sprite_json@, icon_name@) == Err::<
                (int, int, int, int),
                ErrorView,
            >(e@),
        },
{
    let icon = match sprite_json.get(icon_name) {
        Some(icon) => icon,
        None => {
            return Err(
                LegendError::InvalidJson(
                    join3("Icon '", icon_name, "' not found in sprite JSON"),
                ),
            );
        },
    };
    let x = match read_icon_number(icon, "x", icon_name) {
        Ok(x) => x,
        Err(e) => {
            return Err(e);
        },
    };
    let y = match read_icon_number(icon, "y", icon_name) {
        Ok(y) => y,
        Err(e) => {
            return Err(e);
        },
    };
    let width = match read_icon_number(icon, "width", icon_name) {
        Ok(width) => width,
        Err(e) => {
            return Err(e);
        },
    };
    let height = match read_icon_number(icon, "height", icon_name) {
        Ok(height) => height,
        Err(e) => {
            return Err(e);
        },
    };
    Ok(IconRect { x, y, width, height })
}

/// The four addresses of a sprite: its sheet and its index, each in
/// double and in single resolution.
#[derive(Debug, PartialEq, Eq)]
pub struct SpriteAddresses {
    pub png_2x: String,
    pub png: String,
    pub json_2x: String,
    pub json: String,
}

/// Derives the addresses of a sprite from the address that a style names.
/// The double resolution is to be tried first.
pub fn sprite_addresses(sprite_url: &str) -> (r: SpriteAddresses)
    ensures
        r.png_2x@ == sprite_url@ + "@2x.png"@,
        r.png@ == sprite_url@ + ".png"@,
        r.json_2x@ == sprite_url@ + "@2x.json"@,
        r.json@ == sprite_url@ + ".json"@,
{
    SpriteAddresses {
        png_2x: join2(sprite_url, "@2x.png"),
        png: join2(sprite_url, ".png"),
        json_2x: join2(sprite_url, "@2x.json"),
        json: join2(sprite_url, ".json"),
    }
}

/// Writes the data URL of a PNG image: a fixed head, then the bytes of
/// the image in base64. Nothing is written for more bytes than base64
/// can take.
pub fn png_data_url(png: &[u8]) -> (r: Option<String>)
    ensures
        match r {
            Some(url) => fits_base64(png@.len() as int) && url@ == "data:image/png;base64,"@
                + base64_text(png@),
            None => !fits_base64(png@.len() as int),
        },
{
    if png.len() / 3 <= (usize::MAX - 4) / 4 {
        let text = encode_base64(png);
        Some(join2("data:image/png;base64,", text.as_str()))
    } else {
        None
    }
}

} // verus!
