//! Types of the operations pallet: an operation, its versions and the
//! artifacts and packages that a version publishes.
use std::collections::BTreeMap;
use vstd::prelude::*;

use crate::support::{
    AnagolayArtifactStructure, AnagolayStructure, AnagolayVersionExtra, ForWhat, GenericId, Text,
    WasmArtifactSubType,
};

verus! {

/// Textual representation of a type.
pub type TypeName = Vec<u8>;

/// Operation structure: all the parameters that define an operation.
#[derive(Clone, Debug, PartialEq, Eq)]
pub struct OperationData {
    /// At most 128 characters, slugified with `_`.
    pub name: Text,
    /// At most 512 or 1024 characters; may be markdown but not html.
    pub description: Text,
    /// What the operation accepts: the parameters of the function, by type.
    pub input: Vec<TypeName>,
    /// Names of configuration parameters, each with the values it allows.
    pub config: BTreeMap<Text, Vec<Text>>,
    /// Used to generate the workflow segments.
    pub groups: Vec<ForWhat>,
    /// Name of the type of the operation's output.
    pub output: TypeName,
    /// Fully qualified URL of a public repository.
    pub repository: Text,
    /// Short name of the license, like "Apache-2.0".
    pub license: Text,
    /// Cargo features of the operation's implementation, like "std".
    pub features: Vec<Text>,
}

impl Default for OperationData {
    /// Every field empty.
    fn default() -> (r: OperationData)
        ensures
            r.name@ == Seq::<u8>::empty(),
            r.description@ == Seq::<u8>::empty(),
            r.input@ == Seq::<TypeName>::empty(),
            r.config@ == Map::<Text, Vec<Text>>::empty(),
            r.groups@ == Seq::<ForWhat>::empty(),
            r.output@ == Seq::<u8>::empty(),
            r.repository@ == Seq::<u8>::empty(),
            r.license@ == Seq::<u8>::empty(),
            r.features@ == Seq::<Text>::empty(),
    {
        OperationData {
            name: Vec::new(),
            description: Vec::new(),
            input: Vec::new(),
            config: BTreeMap::new(),
            groups: Vec::new(),
            output: Vec::new(),
            repository: Vec::new(),
            license: Vec::new(),
            features: Vec::new(),
        }
    }
}

/// Extra data of an operation; it has none.
#[derive(Clone, Copy, Debug, PartialEq, Eq)]
pub struct OperationExtra {}

/// The kinds of package that a version of an operation publishes.
#[derive(Clone, Copy, Debug, PartialEq, Eq)]
pub enum PackageType {
    Crate,
    Wasm,
    Esm,
}

/// A package published for an operation version.
#[derive(Clone, Debug, PartialEq, Eq)]
pub struct OperationVersionPackage {
    pub package_type: PackageType,
    pub file_url: Text,
    pub ipfs_cid: GenericId,
}

/// Operation version artifact types: the kinds of package that the
/// publisher service makes when an operation version is published.
#[derive(Clone, Copy, Debug, PartialEq, Eq)]
pub enum OperationArtifactType {
    /// Documentation made by `cargo doc`.
    Docs,
    /// Git source code of the operation, to be used as a dependency.
    Git,
    /// Wasm artifacts made by wasm-pack, one per subtype.
    Wasm(WasmArtifactSubType),
}

/// Operation version structure: the operation it belongs to, the version it
/// follows, and the artifacts it publishes.
#[derive(Clone, Debug, PartialEq, Eq)]
pub struct OperationVersionData {
    pub entity_id: Option<GenericId>,
    pub parent_id: Option<GenericId>,
    pub artifacts: Vec<AnagolayArtifactStructure<OperationArtifactType>>,
}

impl Default for OperationVersionData {
    /// No operation, no parent, no artifacts.
    fn default() -> (r: OperationVersionData)
        ensures
            r.entity_id is None,
            r.parent_id is None,
            r.artifacts@ == Seq::<AnagolayArtifactStructure<OperationArtifactType>>::empty(),
    {
        OperationVersionData { entity_id: None, parent_id: None, artifacts: Vec::new() }
    }
}

/// Extra data of an operation version: when it was created.
#[derive(Clone, Copy, Debug, PartialEq, Eq)]
pub struct OperationVersionExtra {
    pub created_at: u64,
}

/// An operation as stored.
pub type Operation = AnagolayStructure<OperationData, OperationExtra>;

/// An operation version as stored.
pub type OperationVersion = AnagolayStructure<OperationVersionData, AnagolayVersionExtra>;

} // verus!
