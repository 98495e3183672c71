//! Texture resources at the batching boundary.
//!
//! Image decoding and GPU upload are an external collaborator's work; this
//! module holds what batching itself reads of a texture — its identity and
//! pixel extent — and the validation a load request goes through before it
//! is handed to that collaborator.

use vstd::prelude::*;
use vstd::string::StringSliceAdditionalSpecFns;

use crate::internal::err_text;
use crate::Error;

verus! {

/// A loaded texture's metadata: the backend-assigned identity and the pixel
/// extent the geometry divides by.  The backend handle itself stays with
/// the layer that performed the load; batching only reads these values.
#[derive(Debug, Clone, Copy, PartialEq, Eq, Structural)]
pub struct Texture {
    pub id: u32,
    pub width: u32,
    pub height: u32,
}

/// Forced color-channel interpretation for a load, or automatic detection.
#[derive(Debug, Clone, Copy, PartialEq, Eq, Structural)]
pub enum ImageChannels {
    Auto,
    Grayscale,
    GrayscaleAlpha,
    RGB,
    RGBA,
}

/// Independent post-load transforms, one bit each.
pub const IMAGE_FLAG_POWER_OF_TWO: u32 = 0x1;

pub const IMAGE_FLAG_MIPMAPS: u32 = 0x2;

pub const IMAGE_FLAG_TEXTURE_REPEATS: u32 = 0x4;

pub const IMAGE_FLAG_MULTIPLY_ALPHA: u32 = 0x8;

pub const IMAGE_FLAG_INVERT_Y: u32 = 0x10;

pub const IMAGE_FLAG_COMPRESS_TO_DXT: u32 = 0x20;

pub const IMAGE_FLAG_DDS_LOAD_DIRECT: u32 = 0x40;

pub const IMAGE_FLAG_NTSC_SAFE_RGB: u32 = 0x80;

pub const IMAGE_FLAG_COCG_Y: u32 = 0x100;

pub const IMAGE_FLAG_TEXTURE_RECTANGLE: u32 = 0x200;

/// Every bit that names a defined transform.
pub const IMAGE_FLAGS_MASK: u32 = 0x3ff;

/// A bitset of post-load transforms.  The transforms themselves are applied
/// by the external image layer; this crate only validates and forwards the
/// bits.
#[derive(Debug, Clone, Copy, PartialEq, Eq, Structural)]
pub struct ImageFlags {
    pub bits: u32,
}

impl ImageFlags {
    /// Only defined transform bits are set.
    pub open spec fn spec_valid(self) -> bool {
        self.bits & IMAGE_FLAGS_MASK == self.bits
    }

    /// No transforms.
    pub fn none() -> (r: ImageFlags)
        ensures
            r.bits == 0,
            r.spec_valid(),
    {
        proof {
            assert(0u32 & IMAGE_FLAGS_MASK == 0u32) by (bit_vector);
        }
        ImageFlags { bits: 0 }
    }

    /// Accepts exactly the combinations of defined transform bits; an
    /// undefined bit is rejected at this boundary.
    pub fn from_bits(bits: u32) -> (r: Option<ImageFlags>)
        ensures
            r matches Some(f) ==> f.bits == bits && f.spec_valid(),
            r is Some <==> bits & IMAGE_FLAGS_MASK == bits,
    {
        if bits & IMAGE_FLAGS_MASK == bits {
            Some(ImageFlags { bits })
        } else {
            None
        }
    }

    /// Whether every bit of `bit` is set.
    pub fn contains(&self, bit: u32) -> (r: bool)
        ensures
            r == (self.bits & bit == bit),
    {
        self.bits & bit == bit
    }

    /// This bitset with the given bits also set.
    pub fn with(&self, bit: u32) -> (r: ImageFlags)
        ensures
            r.bits == self.bits | bit,
    {
        ImageFlags { bits: self.bits | bit }
    }
}

impl ImageChannels {
    /// The numeric code the image layer uses for this interpretation.
    pub open spec fn spec_code(self) -> u32 {
        match self {
            ImageChannels::Auto => 0,
            ImageChannels::Grayscale => 1,
            ImageChannels::GrayscaleAlpha => 2,
            ImageChannels::RGB => 3,
            ImageChannels::RGBA => 4,
        }
    }

    /// The numeric code the image layer uses for this interpretation.
    pub fn code(&self) -> (r: u32)
        ensures
            r == self.spec_code(),
    {
        match self {
            ImageChannels::Auto => 0,
            ImageChannels::Grayscale => 1,
            ImageChannels::GrayscaleAlpha => 2,
            ImageChannels::RGB => 3,
            ImageChannels::RGBA => 4,
        }
    }
}

/// On-disk formats a screenshot can be saved in.
#[derive(Debug, Clone, Copy, PartialEq, Eq, Structural)]
pub enum SaveImageFormat {
    TGA,
    BMP,
    DDS,
}

impl SaveImageFormat {
    /// The numeric code the image layer uses for this format.
    pub open spec fn spec_code(self) -> u32 {
        match self {
            SaveImageFormat::TGA => 0,
            SaveImageFormat::BMP => 1,
            SaveImageFormat::DDS => 2,
        }
    }

    /// The numeric code the image layer uses for this format.
    pub fn code(&self) -> (r: u32)
        ensures
            r == self.spec_code(),
    {
        match self {
            SaveImageFormat::TGA => 0,
            SaveImageFormat::BMP => 1,
            SaveImageFormat::DDS => 2,
        }
    }
}

/// A validated in-memory load, ready for the image/backend layer: the byte
/// count of the encoded image, the channel interpretation, the requested
/// identity (zero meaning backend-assigned) and the transform bits.
#[derive(Debug, Clone, Copy, PartialEq, Eq, Structural)]
pub struct MemoryLoadRequest {
    pub data_len: usize,
    pub channels_code: u32,
    pub texture_id: u32,
    pub flag_bits: u32,
}

/// A validated file load, ready for the image/backend layer.
#[derive(Debug, Clone, Copy, PartialEq, Eq, Structural)]
pub struct FileLoadRequest {
    pub channels_code: u32,
    pub texture_id: u32,
    pub flag_bits: u32,
}

#[verifier::external_type_specification]
#[verifier::external_body]
pub struct ExBytes(bytes::Bytes);

/// What a `bytes::Bytes` buffer holds.
pub uninterp spec fn bytes_content(b: bytes::Bytes) -> Seq<u8>;

/// Relies on `bytes::Bytes::len`: the number of bytes the buffer holds.
pub assume_specification[ bytes::Bytes::len ](b: &bytes::Bytes) -> (r: usize)
    ensures
        r == bytes_content(*b).len(),
;

/// The identity a load asks the backend for: an explicit one, or zero to
/// let the backend assign one.
pub open spec fn requested_id(texture_id: Option<u32>) -> u32 {
    match texture_id {
        Option::Some(i) => i,
        Option::None => 0,
    }
}

/// Whether a path can cross the boundary to the image layer: it must hold
/// no interior NUL byte.
pub open spec fn path_valid(path: Seq<u8>) -> bool {
    forall|i: int| 0 <= i < path.len() ==> path[i] != 0u8
}

/// Checks that a path can cross the boundary to the image layer: it must
/// hold no NUL byte.
pub fn check_path(path: &str) -> (r: bool)
    ensures
        r == path_valid(path.spec_bytes()),
{
    let bytes = path.as_bytes();
    let mut i: usize = 0;
    while i < bytes.len()
        invariant
            i <= bytes@.len(),
            bytes@ == path.spec_bytes(),
            forall|k: int| 0 <= k < i ==> bytes@[k] != 0u8,
        decreases bytes@.len() - i,
    {
        if bytes[i] == 0 {
            return false;
        }
        i = i + 1;
    }
    true
}

impl Texture {
    /// Validates an in-memory load.  An explicitly requested identity of
    /// zero is a caller error; `None` lets the backend assign one.  On
    /// success the request carries everything the image layer needs
    /// alongside the bytes themselves.
    pub fn from_memory(
        data: &bytes::Bytes,
        channels: ImageChannels,
        texture_id: Option<u32>,
        flags: ImageFlags,
    ) -> (r: Result<MemoryLoadRequest, Error>)
        ensures
            texture_id == Option::Some(0u32) ==> r matches Err(Error::InvalidArgument),
            texture_id != Option::Some(0u32) ==> (r matches Ok(req) && req.data_len
                == bytes_content(*data).len() && req.channels_code == channels.spec_code()
                && req.texture_id == requested_id(texture_id) && req.flag_bits == flags.bits),
    {
        let id: u32 = match texture_id {
            Option::Some(i) => {
                if i == 0 {
                    return Err(Error::InvalidArgument);
                }
                i
            },
            Option::None => 0,
        };
        Ok(
            MemoryLoadRequest {
                data_len: data.len(),
                channels_code: channels.code(),
                texture_id: id,
                flag_bits: flags.bits,
            },
        )
    }

    /// Validates a file load: the requested identity as in `from_memory`,
    /// and a path the image layer can take (no interior NUL byte).
    pub fn from_file(
        path: &str,
        channels: ImageChannels,
        texture_id: Option<u32>,
        flags: ImageFlags,
    ) -> (r: Result<FileLoadRequest, Error>)
        ensures
            texture_id == Option::Some(0u32) ==> r matches Err(Error::InvalidArgument),
            !path_valid(path.spec_bytes()) ==> r is Err,
            (texture_id != Option::Some(0u32) && path_valid(path.spec_bytes())) ==> (r matches Ok(
                req,
            ) && req.channels_code == channels.spec_code() && req.texture_id == requested_id(
                texture_id,
            ) && req.flag_bits == flags.bits),
    {
        let id: u32 = match texture_id {
            Option::Some(i) => {
                if i == 0 {
                    return Err(Error::InvalidArgument);
                }
                i
            },
            Option::None => 0,
        };
        if !check_path(path) {
            return Err(Error::InvalidArgument);
        }
        Ok(FileLoadRequest { channels_code: channels.code(), texture_id: id, flag_bits: flags.bits })
    }

    /// Folds the image layer's answer to a load into a texture or an error:
    /// `None` means the load failed and the backend's last-error text, when
    /// it gave one, explains why.
    pub fn from_load_outcome(outcome: Option<Texture>, last_error: Option<String>) -> (r: Result<
        Texture,
        Error,
    >)
        ensures
            outcome matches Some(t) ==> r == Ok::<Texture, Error>(t),
            outcome is None ==> (r matches Err(Error::BackendError(m)) && m@ == err_text(
                last_error,
            )),
    {
        match outcome {
            Option::Some(t) => Ok(t),
            Option::None => Err(Error::BackendError(crate::internal::try_get_err(last_error))),
        }
    }
}

} // verus!
