//! Shared building blocks of the pallets: byte strings, identifiers and the
//! group tags that say what a structure is made for.
use vstd::prelude::*;
use vstd::string::StrSliceExecFns;
use vstd::string::StringSliceAdditionalSpecFns;

verus! {

/// Free-form text stored as raw bytes.
pub type Text = Vec<u8>;

/// A content identifier stored as raw bytes.
pub type GenericId = Vec<u8>;

/// A byte string as stored on chain (UTF-8 text, by convention).
#[derive(Clone, Debug, PartialEq, Eq, PartialOrd, Ord, Hash, Default)]
pub struct Characters(pub Vec<u8>);

/// Identifier of a published version of an entity.
pub type VersionId = Characters;

/// Identifier of a creator: an account id, a PGP key or an e-mail address.
pub type CreatorId = Characters;

impl View for Characters {
    type V = Seq<u8>;

    open spec fn view(&self) -> Seq<u8> {
        self.0@
    }
}

impl Characters {
    /// The UTF-8 encoding of `s`.
    pub fn from_str(s: &str) -> (res: Characters)
        ensures
            res@ == s.spec_bytes(),
    {
        Characters(s.as_bytes_vec())
    }

    /// Number of bytes held.
    pub fn len(&self) -> (n: usize)
        ensures
            n == self@.len(),
    {
        self.0.len()
    }
}

/// Identifier of a stored artifact (an IPFS CID).
pub type ArtifactId = Characters;

/// A stored structure: its content id, its data, and optional extra data
/// that is not part of what the id is made from.
#[derive(Clone, Debug, PartialEq, Eq)]
pub struct AnagolayStructure<T, U> {
    pub id: GenericId,
    pub data: T,
    pub extra: Option<U>,
}

/// An artifact of a published version: its type, the extension of its file
/// and where it is stored.
#[derive(Clone, Debug, PartialEq, Eq)]
pub struct AnagolayArtifactStructure<T> {
    pub artifact_type: T,
    pub file_extension: Characters,
    pub ipfs_cid: ArtifactId,
}

/// The data of a published version: the entity it belongs to, the version
/// it follows, and its artifacts.
#[derive(Clone, Debug, PartialEq, Eq)]
pub struct AnagolayVersionData<T> {
    pub entity_id: Option<GenericId>,
    pub parent_id: Option<GenericId>,
    pub artifacts: Vec<AnagolayArtifactStructure<T>>,
}

/// Extra data of a published version: when it was created.
#[derive(Clone, Copy, Debug, PartialEq, Eq)]
pub struct AnagolayVersionExtra {
    pub created_at: u64,
}

/// What a structure is created for; a structure may belong to several groups.
#[allow(non_camel_case_types)]
#[derive(Clone, Copy, Debug, PartialEq, Eq)]
pub enum ForWhat {
    GENERIC,
    PHOTO,
    CAMERA,
    LENS,
    SMARTPHONE,
    USER,
    SYS,
    FLOWCONTROL,
}

impl Default for ForWhat {
    fn default() -> (r: ForWhat)
        ensures
            r == ForWhat::GENERIC,
    {
        ForWhat::GENERIC
    }
}

/// The flavours of a wasm-pack build: each holds the same wasm module, with
/// different JavaScript glue around it.
#[derive(Clone, Copy, Debug, PartialEq, Eq)]
pub enum WasmArtifactSubType {
    Cjs,
    Esm,
    Wasm,
    Web,
}

} // verus!
