//! Choices that the caller makes by name.

use vstd::prelude::*;

verus! {

/// The page compression asked for.
#[derive(Debug, Clone, Copy, PartialEq, Eq, Structural)]
pub enum CompressionVariants {
    Uncompressed,
    Gzip,
    Lz4,
    Lz0,
    Zstd,
    Snappy,
    Brotli,
}

/// How text is fetched from the driver.
#[derive(Debug, Clone, Copy, PartialEq, Eq, Structural)]
pub enum EncodingArgument {
    /// In the encoding of the system, taken to be UTF-8.
    System,
    /// In UTF-16.
    Utf16,
    /// In whatever suits the platform: UTF-16 where its drivers work in wide
    /// characters, the system encoding elsewhere.
    Auto,
}

impl EncodingArgument {
    /// Whether text is fetched in UTF-16, on a platform whose drivers work
    /// in wide characters or not.
    pub open spec fn spec_use_utf16(self, wide_platform: bool) -> bool {
        match self {
            EncodingArgument::System => false,
            EncodingArgument::Utf16 => true,
            EncodingArgument::Auto => wide_platform,
        }
    }

    /// Whether text is fetched in UTF-16, on a platform whose drivers work
    /// in wide characters or not.
    #[verifier::when_used_as_spec(spec_use_utf16)]
    pub fn use_utf16(self, wide_platform: bool) -> (wide: bool)
        ensures
            wide == self.spec_use_utf16(wide_platform),
    {
        match self {
            EncodingArgument::System => false,
            EncodingArgument::Utf16 => true,
            EncodingArgument::Auto => wide_platform,
        }
    }
}

} // verus!
