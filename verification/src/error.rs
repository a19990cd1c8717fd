//! Failures of a conversion.

use vstd::prelude::*;
use vstd::string::*;

verus! {

/// Why a conversion did not take place. Every failure ends the conversion;
/// nothing is written after one.
///
/// The transform itself fails only with `MissingAlphaChannel` and
/// `DimensionMismatch`. The other kinds are for the code that reads and
/// writes the files around it.
#[derive(Clone, Copy, Debug, PartialEq, Eq)]
pub enum TextureError {
    /// An input file does not exist.
    FileNotFound,
    /// An input file does not hold a readable image.
    DecodeError,
    /// The texture to split has no alpha channel to take smoothness from.
    MissingAlphaChannel,
    /// The two textures to merge differ in width or height. `expected` is
    /// the size of the metallic texture, `actual` that of the roughness
    /// texture, each as `(width, height)`.
    DimensionMismatch { expected: (u32, u32), actual: (u32, u32) },
    /// An output image could not be encoded or written.
    EncodeError,
    /// The input path has no file name to derive output names from.
    PathDerivationError,
}

impl TextureError {
    /// Whether two failures are of the same kind, whatever sizes they carry.
    pub open spec fn same_kind(self, other: TextureError) -> bool {
        match self {
            TextureError::FileNotFound => other is FileNotFound,
            TextureError::DecodeError => other is DecodeError,
            TextureError::MissingAlphaChannel => other is MissingAlphaChannel,
            TextureError::DimensionMismatch { .. } => other is DimensionMismatch,
            TextureError::EncodeError => other is EncodeError,
            TextureError::PathDerivationError => other is PathDerivationError,
        }
    }

    /// The text of `message`.
    pub open spec fn spec_message(self) -> Seq<char> {
        match self {
            TextureError::FileNotFound => "Input file not found!"@,
            TextureError::DecodeError => "Input file is not a readable image!"@,
            TextureError::MissingAlphaChannel => "Input image does not have an alpha channel!"@,
            TextureError::DimensionMismatch { .. } => "Input images are not the same size!"@,
            TextureError::EncodeError => "Output image could not be written!"@,
            TextureError::PathDerivationError => "Could not determine file name!"@,
        }
    }

    /// A sentence for the user, distinct for each kind of failure.
    pub fn message(&self) -> (text: String)
        ensures
            text@ == self.spec_message(),
    {
        match self {
            TextureError::FileNotFound => String::from_str("Input file not found!"),
            TextureError::DecodeError => String::from_str("Input file is not a readable image!"),
            TextureError::MissingAlphaChannel => String::from_str(
                "Input image does not have an alpha channel!",
            ),
            TextureError::DimensionMismatch { .. } => String::from_str(
                "Input images are not the same size!",
            ),
            TextureError::EncodeError => String::from_str("Output image could not be written!"),
            TextureError::PathDerivationError => String::from_str("Could not determine file name!"),
        }
    }
}

/// Failures of different kinds have different messages.
pub proof fn lemma_messages_tell_kinds_apart(a: TextureError, b: TextureError)
    requires
        !a.same_kind(b),
    ensures
        a.spec_message() != b.spec_message(),
{
    reveal_strlit("Input file not found!");
    reveal_strlit("Input file is not a readable image!");
    reveal_strlit("Input image does not have an alpha channel!");
    reveal_strlit("Input images are not the same size!");
    reveal_strlit("Output image could not be written!");
    reveal_strlit("Could not determine file name!");
    if a.spec_message().len() == b.spec_message().len() {
        // Only two of the messages are equally long, and these differ in
        // their seventh character.
        assert(a.spec_message()[6] != b.spec_message()[6]);
    }
}

} // verus!
