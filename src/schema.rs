use vstd::prelude::*;

verus! {

/// Bit pattern of the single-precision number 16.0, the default scale of a text.
pub const DEFAULT_SCALE_BITS: u32 = 0x4180_0000;

/// One line of text to draw.
///
/// The scales are held as IEEE-754 single-precision bit patterns (`f32::to_bits`).
pub struct Text {
    pub value: String,
    pub x: i32,
    pub y: i32,
    pub scale_x: u32,
    pub scale_y: u32,
    /// Red, green and blue.
    pub color: Vec<u8>,
    /// Drawn as a glyph or icon rather than as literal text.
    pub symbol: bool,
}

/// Raw image data to draw at a position, with its size.
pub struct Image {
    pub value: Vec<u8>,
    pub x: u32,
    pub y: u32,
    pub width: u32,
    pub height: u32,
}

/// One drawable unit.
pub enum Item {
    Text(Text),
    Image(Image),
}

/// The items of one frame of output, in drawing order.
pub struct ExchangeFormat {
    pub items: Vec<Item>,
}

impl Default for Text {
    /// Empty white text at the origin, at scale 16.0 on both axes, not a symbol.
    fn default() -> (r: Text)
        ensures
            r.value@ == Seq::<char>::empty(),
            r.x == 0,
            r.y == 0,
            r.scale_x == DEFAULT_SCALE_BITS,
            r.scale_y == DEFAULT_SCALE_BITS,
            r.color@ == seq![255u8, 255u8, 255u8],
            !r.symbol,
    {
        Text {
            color: vec![255, 255, 255],
            value: String::new(),
            scale_x: DEFAULT_SCALE_BITS,
            scale_y: DEFAULT_SCALE_BITS,
            symbol: false,
            x: 0,
            y: 0,
        }
    }
}

impl Default for ExchangeFormat {
    /// No items.
    fn default() -> (r: ExchangeFormat)
        ensures
            r.items@ == Seq::<Item>::empty(),
    {
        ExchangeFormat { items: Vec::new() }
    }
}

impl ExchangeFormat {
    /// A frame holding `items`, in their order.
    pub fn new(items: Vec<Item>) -> (r: ExchangeFormat)
        ensures
            r.items == items,
    {
        ExchangeFormat { items }
    }
}

} // verus!
