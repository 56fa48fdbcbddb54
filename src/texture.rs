//! Checking a decoded sprite sheet before it is uploaded as a texture.
use vstd::prelude::*;

verus! {

/// Channels per pixel of the sheet: red, green, blue.
pub const RGB_DEPTH: usize = 3;

/// The size of a sheet that can be uploaded, in the driver's signed type.
#[derive(Clone, Copy, Debug, PartialEq, Eq, Structural)]
pub struct TextureSize {
    pub width: i32,
    pub height: i32,
}

/// Why a decoded sheet cannot be uploaded.
#[derive(Clone, Copy, Debug, PartialEq, Eq, Structural)]
pub enum TextureError {
    /// The image does not have three channels per pixel.
    WrongDepth,
    /// The image has no pixels.
    Empty,
    /// A side does not fit the driver's signed size type.
    TooLarge,
    /// The pixel data is not `width * height * 3` bytes long.
    DataLength,
}

pub open spec fn texture_size_spec(width: usize, height: usize, depth: usize, data_len: usize) -> Result<
    TextureSize,
    TextureError,
> {
    if depth != RGB_DEPTH {
        Err(TextureError::WrongDepth)
    } else if width == 0 || height == 0 {
        Err(TextureError::Empty)
    } else if width > i32::MAX || height > i32::MAX {
        Err(TextureError::TooLarge)
    } else if data_len != width * height * RGB_DEPTH {
        Err(TextureError::DataLength)
    } else {
        Ok(TextureSize { width: width as i32, height: height as i32 })
    }
}

/// The size to upload a decoded RGB sheet with, checking that its depth,
/// sides and pixel data agree.
pub fn texture_size(width: usize, height: usize, depth: usize, data_len: usize) -> (r: Result<
    TextureSize,
    TextureError,
>)
    ensures
        r == texture_size_spec(width, height, depth, data_len),
        r is Ok <==> (depth == RGB_DEPTH && 0 < width <= i32::MAX && 0 < height <= i32::MAX
            && data_len == width * height * RGB_DEPTH),
        r matches Ok(s) ==> s.width == width && s.height == height,
{
    if depth != RGB_DEPTH {
        return Err(TextureError::WrongDepth);
    }
    if width == 0 || height == 0 {
        return Err(TextureError::Empty);
    }
    if width > i32::MAX as usize || height > i32::MAX as usize {
        return Err(TextureError::TooLarge);
    }
    let pixels = match width.checked_mul(height) {
        Some(p) => p,
        None => return Err(TextureError::DataLength),
    };
    let bytes = match pixels.checked_mul(RGB_DEPTH) {
        Some(b) => b,
        None => return Err(TextureError::DataLength),
    };
    if data_len != bytes {
        return Err(TextureError::DataLength);
    }
    Ok(TextureSize { width: width as i32, height: height as i32 })
}

} // verus!
