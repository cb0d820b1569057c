//! The archive formats and library kinds that an archive section selects.
use vstd::prelude::*;

verus! {

/// A compression algorithm applied to a tarball.
#[derive(Debug, Clone, Copy, PartialEq, Eq, Structural)]
pub enum CompressionImpl {
    /// `.gz`
    Gzip,
    /// `.xz`
    Xzip,
    /// `.zst`
    Zstd,
}

/// The container format of an archive.
#[derive(Debug, Clone, Copy, PartialEq, Eq, Structural)]
pub enum ZipStyle {
    /// `.zip`
    Zip,
    /// `.tar` with the given compression
    Tar(CompressionImpl),
}

/// A kind of built library that can be bundled with the binaries.
#[derive(Debug, Clone, Copy, PartialEq, Eq, Structural)]
pub enum LibraryStyle {
    /// A C-compatible dynamic library (`cdylib`)
    CDynamic,
    /// A C-compatible static library (`staticlib`)
    CStatic,
}

} // verus!
