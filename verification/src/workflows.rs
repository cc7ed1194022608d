//! Types of the workflows pallet: a workflow is a list of segments, each a
//! sequence of operation versions to execute, and its data is checked by
//! [`WorkflowData::validate`] before it is stored.
use std::collections::BTreeMap;
use vstd::prelude::*;
use vstd::string::StringSliceAdditionalSpecFns;

use crate::support::{
    AnagolayStructure, AnagolayVersionData, AnagolayVersionExtra, Characters, CreatorId, ForWhat,
    VersionId, WasmArtifactSubType,
};

verus! {

/// Error text when the name has fewer than 8 or more than 128 bytes.
pub const NAME_LENGTH_ERROR: &'static str = "WorkflowData.name: length must be between 8 and 128 characters";

/// Error text when the description has fewer than 8 or more than 1024 bytes.
pub const DESCRIPTION_LENGTH_ERROR: &'static str = "WorkflowData.description: length must be between 8 and 1024 characters";

/// Error text when the workflow does not have exactly one creator.
pub const CREATORS_ERROR: &'static str = "WorkflowData.creators: only Workflows with a single creator are supported at the moment";

/// Smallest accepted length of a workflow name, in bytes.
pub const NAME_MIN: usize = 8;

/// Largest accepted length of a workflow name, in bytes.
pub const NAME_MAX: usize = 128;

/// Smallest accepted length of a workflow description, in bytes.
pub const DESCRIPTION_MIN: usize = 8;

/// Largest accepted length of a workflow description, in bytes.
pub const DESCRIPTION_MAX: usize = 1024;

/// An operation to execute in a workflow segment.
#[derive(Clone, Debug, PartialEq, Eq)]
pub struct OperationVersionReference {
    /// The version id of the operation to execute.
    pub version_id: VersionId,
    /// The configuration to apply to the operation when it executes.
    pub config: BTreeMap<Characters, Characters>,
}

/// A sequence of operations, with the configuration of each, and where the
/// input that starts it comes from: a negative input is acquired from the
/// outside world (e.g. the user), any other is the index of an earlier
/// segment of the workflow.
#[derive(Clone, Debug, PartialEq, Eq)]
pub struct WorkflowSegment {
    /// The inputs of this segment.
    pub inputs: Vec<i8>,
    /// The operations to execute in this segment, in order.
    pub sequence: Vec<OperationVersionReference>,
}

/// Workflow data, from which the workflow id is made.
#[derive(Clone, Debug, PartialEq, Eq)]
pub struct WorkflowData {
    /// Human readable name: 8 to 128 characters, slugified with `_`.
    pub name: Characters,
    /// The creators: account ids on the chain, PGP keys or e-mail addresses.
    pub creators: Vec<CreatorId>,
    /// Markdown but not html: 8 to 1024 characters.
    pub description: Characters,
    /// The groups the workflow belongs to.
    pub groups: Vec<ForWhat>,
    /// The segments of the workflow.
    pub segments: Vec<WorkflowSegment>,
}

/// Whether `n` is an accepted length of a workflow name.
pub open spec fn name_length_ok(n: nat) -> bool {
    NAME_MIN <= n <= NAME_MAX
}

/// Whether `n` is an accepted length of a workflow description.
pub open spec fn description_length_ok(n: nat) -> bool {
    DESCRIPTION_MIN <= n <= DESCRIPTION_MAX
}

impl WorkflowData {
    /// What validation answers: the first rule broken, in the order name,
    /// description, creators, given by the bytes of its error text.
    pub open spec fn validation(self) -> Result<(), Seq<u8>> {
        if !name_length_ok(self.name@.len()) {
            Err(NAME_LENGTH_ERROR.spec_bytes())
        } else if !description_length_ok(self.description@.len()) {
            Err(DESCRIPTION_LENGTH_ERROR.spec_bytes())
        } else if self.creators@.len() != 1 {
            Err(CREATORS_ERROR.spec_bytes())
        } else {
            Ok(())
        }
    }

    /// Whether the data keeps every rule.
    pub open spec fn is_valid(self) -> bool {
        &&& name_length_ok(self.name@.len())
        &&& description_length_ok(self.description@.len())
        &&& self.creators@.len() == 1
    }

    /// Checks the name and description lengths and that there is exactly one
    /// creator; the error is the text of the first rule broken.
    pub fn validate(&self) -> (res: Result<(), Characters>)
        ensures
            res is Ok <==> self.is_valid(),
            res is Ok <==> self.validation() is Ok,
            res matches Err(e) ==> self.validation() == Err::<(), Seq<u8>>(e@),
            res is Ok <==> (NAME_MIN <= self.name@.len() <= NAME_MAX
                && DESCRIPTION_MIN <= self.description@.len() <= DESCRIPTION_MAX
                && self.creators@.len() == 1),
            (res matches Err(e) && e@ == NAME_LENGTH_ERROR.spec_bytes())
                <==> (self.name@.len() < NAME_MIN || self.name@.len() > NAME_MAX),
            (res matches Err(e) && e@ == DESCRIPTION_LENGTH_ERROR.spec_bytes())
                <==> (NAME_MIN <= self.name@.len() <= NAME_MAX
                && (self.description@.len() < DESCRIPTION_MIN
                || self.description@.len() > DESCRIPTION_MAX)),
            (res matches Err(e) && e@ == CREATORS_ERROR.spec_bytes())
                <==> (NAME_MIN <= self.name@.len() <= NAME_MAX
                && DESCRIPTION_MIN <= self.description@.len() <= DESCRIPTION_MAX
                && self.creators@.len() != 1),
    {
        proof {
            error_texts_distinct();
        }
        let name_len = self.name.len();
        let description_len = self.description.len();
        if name_len < NAME_MIN || name_len > NAME_MAX {
            Err(Characters::from_str(NAME_LENGTH_ERROR))
        } else if description_len < DESCRIPTION_MIN || description_len > DESCRIPTION_MAX {
            Err(Characters::from_str(DESCRIPTION_LENGTH_ERROR))
        } else if self.creators.len() != 1 {
            Err(Characters::from_str(CREATORS_ERROR))
        } else {
            Ok(())
        }
    }
}

impl Default for WorkflowData {
    /// Empty name and description, one empty creator, the default group and
    /// no segments.
    fn default() -> (r: WorkflowData)
        ensures
            r.name@ == Seq::<u8>::empty(),
            r.creators@.len() == 1,
            r.creators@[0]@ == Seq::<u8>::empty(),
            r.description@ == Seq::<u8>::empty(),
            r.groups@ == seq![ForWhat::GENERIC],
            r.segments@ == Seq::<WorkflowSegment>::empty(),
    {
        let mut creators: Vec<CreatorId> = Vec::new();
        creators.push(Characters(Vec::new()));
        let mut groups: Vec<ForWhat> = Vec::new();
        groups.push(ForWhat::default());
        WorkflowData {
            name: Characters(Vec::new()),
            creators,
            description: Characters(Vec::new()),
            groups,
            segments: Vec::new(),
        }
    }
}

/// Extra data of a workflow; it has none.
#[derive(Clone, Copy, Debug, PartialEq, Eq)]
pub struct WorkflowExtra {}

impl Default for WorkflowExtra {
    fn default() -> (r: WorkflowExtra)
        ensures
            r == (WorkflowExtra {}),
    {
        WorkflowExtra {}
    }
}

/// The kinds of artifact that the publisher service makes when a workflow
/// version is published.
#[derive(Clone, Copy, Debug, PartialEq, Eq)]
pub enum WorkflowArtifactType {
    /// Documentation made by `cargo doc`; its entry point is always
    /// `${ipfs_cid}/${manifest.data.name}/index.html`.
    Docs,
    /// Git source code of the workflow, to be used as a dependency.
    Git,
    /// Wasm artifacts made by wasm-pack, one per subtype.
    Wasm(WasmArtifactSubType),
}

/// A workflow as stored.
pub type Workflow = AnagolayStructure<WorkflowData, WorkflowExtra>;

/// The data of a workflow version.
pub type WorkflowVersionData = AnagolayVersionData<WorkflowArtifactType>;

/// A workflow version as stored.
pub type WorkflowVersion = AnagolayStructure<WorkflowVersionData, AnagolayVersionExtra>;

/// Validation reads only the lengths of the name and the description and the
/// number of creators: two workflows that agree on these get the same answer.
pub proof fn validation_reads_only_lengths(a: WorkflowData, b: WorkflowData)
    requires
        a.name@.len() == b.name@.len(),
        a.description@.len() == b.description@.len(),
        a.creators@.len() == b.creators@.len(),
    ensures
        a.validation() == b.validation(),
        a.is_valid() == b.is_valid(),
{
}

/// What `validate` answers, for every workflow and every result it can give:
/// it accepts exactly when the name has 8 to 128 bytes, the description 8 to
/// 1024 bytes and there is exactly one creator; it rejects with the name
/// error exactly when the name has fewer than 8 or more than 128 bytes; with
/// the description error exactly when the name is in bounds and the
/// description has fewer than 8 or more than 1024 bytes; and with the
/// creators error exactly when both lengths are in bounds and the number of
/// creators is not one.
pub proof fn validate_answers_by_bounds(w: WorkflowData, res: Result<(), Characters>)
    requires
        call_ensures(WorkflowData::validate, (&w,), res),
    ensures
        res is Ok <==> (8 <= w.name@.len() <= 128 && 8 <= w.description@.len() <= 1024
            && w.creators@.len() == 1),
        (res matches Err(e) && e@ == NAME_LENGTH_ERROR.spec_bytes())
            <==> (w.name@.len() < 8 || w.name@.len() > 128),
        (res matches Err(e) && e@ == DESCRIPTION_LENGTH_ERROR.spec_bytes())
            <==> (8 <= w.name@.len() <= 128 && (w.description@.len() < 8
            || w.description@.len() > 1024)),
        (res matches Err(e) && e@ == CREATORS_ERROR.spec_bytes())
            <==> (8 <= w.name@.len() <= 128 && 8 <= w.description@.len() <= 1024
            && w.creators@.len() != 1),
        res matches Err(e) ==> (e@ == NAME_LENGTH_ERROR.spec_bytes()
            || e@ == DESCRIPTION_LENGTH_ERROR.spec_bytes() || e@ == CREATORS_ERROR.spec_bytes()),
{
}

/// Lengthening or shortening a name within 8 to 128 bytes, or a description
/// within 8 to 1024 bytes, never changes what `validate` answers: two
/// workflows whose lengths both lie in bounds, with the same number of
/// creators, get the same result.
pub proof fn validate_same_within_bounds(
    a: WorkflowData,
    b: WorkflowData,
    ra: Result<(), Characters>,
    rb: Result<(), Characters>,
)
    requires
        call_ensures(WorkflowData::validate, (&a,), ra),
        call_ensures(WorkflowData::validate, (&b,), rb),
        8 <= a.name@.len() <= 128,
        8 <= b.name@.len() <= 128,
        8 <= a.description@.len() <= 1024,
        8 <= b.description@.len() <= 1024,
        a.creators@.len() == b.creators@.len(),
    ensures
        ra is Ok <==> rb is Ok,
        ra is Ok <==> a.creators@.len() == 1,
{
}

/// The three error texts are distinct byte strings.
proof fn error_texts_distinct()
    ensures
        NAME_LENGTH_ERROR.spec_bytes() != DESCRIPTION_LENGTH_ERROR.spec_bytes(),
        NAME_LENGTH_ERROR.spec_bytes() != CREATORS_ERROR.spec_bytes(),
        DESCRIPTION_LENGTH_ERROR.spec_bytes() != CREATORS_ERROR.spec_bytes(),
{
    reveal_strlit("WorkflowData.name: length must be between 8 and 128 characters");
    reveal_strlit("WorkflowData.description: length must be between 8 and 1024 characters");
    reveal_strlit("WorkflowData.creators: only Workflows with a single creator are supported at the moment");
    vstd::utf8::encode_utf8_decode_utf8(NAME_LENGTH_ERROR@);
    vstd::utf8::encode_utf8_decode_utf8(DESCRIPTION_LENGTH_ERROR@);
    vstd::utf8::encode_utf8_decode_utf8(CREATORS_ERROR@);
    assert(NAME_LENGTH_ERROR@[13] == 'n');
    assert(DESCRIPTION_LENGTH_ERROR@[13] == 'd');
    assert(CREATORS_ERROR@[13] == 'c');
}

/// Each rejection names the rule that was broken: the name error comes
/// exactly when the name length is out of bounds, the description error
/// exactly when the name is fine and the description length is out of
/// bounds, and the creators error exactly when both lengths are fine and the
/// number of creators is not one; the data is accepted exactly when it keeps
/// every rule.
pub proof fn validation_names_broken_rule(w: WorkflowData)
    ensures
        w.validation() is Ok <==> (8 <= w.name@.len() <= 128 && 8 <= w.description@.len() <= 1024
            && w.creators@.len() == 1),
        w.validation() == Err::<(), Seq<u8>>(NAME_LENGTH_ERROR.spec_bytes())
            <==> (w.name@.len() < 8 || w.name@.len() > 128),
        w.validation() == Err::<(), Seq<u8>>(DESCRIPTION_LENGTH_ERROR.spec_bytes())
            <==> (8 <= w.name@.len() <= 128 && (w.description@.len() < 8
            || w.description@.len() > 1024)),
        w.validation() == Err::<(), Seq<u8>>(CREATORS_ERROR.spec_bytes())
            <==> (8 <= w.name@.len() <= 128 && 8 <= w.description@.len() <= 1024
            && w.creators@.len() != 1),
{
    error_texts_distinct();
}

} // verus!
