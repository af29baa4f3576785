use vstd::prelude::*;

verus! {

/// Known GIF block labels.
///
/// A block label decides the layout of the bytes that follow it, so parsing cannot go on
/// after an unknown label.
#[derive(Debug, Copy, Clone, PartialEq, Eq, Structural)]
pub enum Block {
    /// Image block (`0x2C`).
    Image,
    /// Extension block (`0x21`).
    Extension,
    /// Trailer (`0x3B`).
    Trailer,
}

/// Known GIF extension labels.
///
/// Only the graphics control extension is interpreted; the others are recognised so that
/// they can be skipped.
#[derive(Debug, Copy, Clone, PartialEq, Eq, Structural)]
pub enum ExtensionLabel {
    /// Graphics control extension (`0xF9`).
    Graphics,
    /// Application extension (`0xFF`).
    App,
    /// Plain text extension (`0x01`).
    Text,
    /// Comment extension (`0xFE`).
    Comment,
}

/// Errors that emerge while parsing or decoding a GIF source.
#[derive(Debug, Copy, Clone, PartialEq, Eq, Structural)]
pub enum ParseError {
    /// Malformed GIF file.
    BadGifFile,
    /// The source ended in the middle of a field.
    UnexpectedEof,
    /// A block label outside `{0x2C, 0x21, 0x3B}`.
    IncorrectBlockLabel,
    /// An extension label that is not recognised.
    IncorrectExtension,
    /// Seeking to an offset failed.
    SeekFail,
    /// No image is left to show.
    NoImagesLeft,
}

pub const IMAGE_LABEL: u8 = 0x2C;

pub const EXTENSION_LABEL: u8 = 0x21;

pub const TRAILER_LABEL: u8 = 0x3B;

pub const GRAPHICS_LABEL: u8 = 0xF9;

pub const APP_LABEL: u8 = 0xFF;

pub const TEXT_LABEL: u8 = 0x01;

pub const COMMENT_LABEL: u8 = 0xFE;

/// The block that a label byte names, if any.
pub open spec fn block_of(n: u8) -> Option<Block> {
    if n == IMAGE_LABEL {
        Some(Block::Image)
    } else if n == EXTENSION_LABEL {
        Some(Block::Extension)
    } else if n == TRAILER_LABEL {
        Some(Block::Trailer)
    } else {
        None
    }
}

/// The extension that a label byte names, if any.
pub open spec fn extension_of(n: u8) -> Option<ExtensionLabel> {
    if n == GRAPHICS_LABEL {
        Some(ExtensionLabel::Graphics)
    } else if n == APP_LABEL {
        Some(ExtensionLabel::App)
    } else if n == TEXT_LABEL {
        Some(ExtensionLabel::Text)
    } else if n == COMMENT_LABEL {
        Some(ExtensionLabel::Comment)
    } else {
        None
    }
}

impl ExtensionLabel {
    /// Reads an extension label byte.
    pub fn from_u8(n: u8) -> (r: Result<Self, ParseError>)
        ensures
            match extension_of(n) {
                Some(l) => r == Ok::<ExtensionLabel, ParseError>(l),
                None => r == Err::<ExtensionLabel, ParseError>(ParseError::IncorrectExtension),
            },
    {
        match n {
            GRAPHICS_LABEL => Ok(ExtensionLabel::Graphics),
            APP_LABEL => Ok(ExtensionLabel::App),
            TEXT_LABEL => Ok(ExtensionLabel::Text),
            COMMENT_LABEL => Ok(ExtensionLabel::Comment),
            _ => Err(ParseError::IncorrectExtension),
        }
    }
}

impl Block {
    /// Reads a block label byte.
    pub fn from_u8(n: u8) -> (r: Result<Self, ParseError>)
        ensures
            match block_of(n) {
                Some(b) => r == Ok::<Block, ParseError>(b),
                None => r == Err::<Block, ParseError>(ParseError::IncorrectBlockLabel),
            },
    {
        match n {
            IMAGE_LABEL => Ok(Block::Image),
            EXTENSION_LABEL => Ok(Block::Extension),
            TRAILER_LABEL => Ok(Block::Trailer),
            _ => Err(ParseError::IncorrectBlockLabel),
        }
    }
}

} // verus!
