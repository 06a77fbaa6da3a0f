use vstd::prelude::*;

verus! {

/// Whether a content hash of the encrypted payload is computed and
/// shown for verification before the operation proceeds.
#[derive(Clone, Copy, PartialEq, Eq, Structural, Debug)]
pub enum HashMode {
    CalculateHash,
    NoHash,
}

/// Whether destructive writes may proceed without confirmation.
#[derive(Clone, Copy, PartialEq, Eq, Structural, Debug)]
pub enum ForceMode {
    Force,
    Prompt,
}

/// Whether, and how thoroughly, the source file is overwritten after a
/// successful operation.
#[derive(Clone, Copy, PartialEq, Eq, Structural, Debug)]
pub enum EraseMode {
    EraseFile(u32),
    IgnoreFile,
}

/// Where the key material comes from.
#[derive(Clone, Debug)]
pub enum Key {
    Keyfile(String),
    Password,
}

/// Where the header is written: in front of the ciphertext, or to a
/// separate file.
#[derive(Clone, Debug)]
pub enum HeaderLocation {
    Embedded,
    Detached(String),
}

/// The switches one cryptographic file operation runs under.  The
/// collaborator layers (prompting, key acquisition, erasure) read
/// these; the engine itself only computes.
#[derive(Clone, Debug)]
pub struct CryptoParams {
    pub hash_mode: HashMode,
    pub force: ForceMode,
    pub erase: EraseMode,
    pub key: Key,
    pub header_location: HeaderLocation,
}

/// Whether a directory is packed file by file or with its subtree.
#[derive(Clone, Copy, PartialEq, Eq, Structural, Debug)]
pub enum DirectoryMode {
    Singular,
    Recursive,
}

/// How chatty directory packing is.
#[derive(Clone, Copy, PartialEq, Eq, Structural, Debug)]
pub enum PrintMode {
    Verbose,
    Quiet,
}

/// Whether the source directory is erased after packing.
#[derive(Clone, Copy, PartialEq, Eq, Structural, Debug)]
pub enum EraseSourceDir {
    Erase,
    Retain,
}

/// Whether the packed data is compressed before encryption.
#[derive(Clone, Copy, PartialEq, Eq, Structural, Debug)]
pub enum Compression {
    Uncompressed,
    Zstd,
}

/// The switches one directory-packing operation runs under; packing
/// itself is a collaborator of the engine, not part of it.
#[derive(Clone, Copy, PartialEq, Eq, Structural, Debug)]
pub struct PackParams {
    pub dir_mode: DirectoryMode,
    pub print_mode: PrintMode,
    pub erase_source: EraseSourceDir,
    pub compression: Compression,
}

} // verus!
