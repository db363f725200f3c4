//! The worker's response model: what a finished request answers, for every
//! way a request can end.
//!
//! A `Reply` is the abstract HTTP answer: a status code, an optional label
//! naming the artifact kind and file delivered, and a body that is either
//! diagnostic text or raw artifact bytes.  Every stage of the pipeline that
//! can fail has a `StageEvent` variant, and `failure_reply` maps each to its
//! status and message; `success_reply` builds the one successful shape.

use vstd::prelude::*;
use vstd::string::StringExecFns;
use vstd::utf8::encode_utf8;
use vstd::utf8::valid_utf8;

verus! {

pub const STATUS_OK: u16 = 200;

pub const STATUS_BAD_REQUEST: u16 = 400;

pub const STATUS_SERVER_ERROR: u16 = 500;

/// Which kind of artifact a successful reply delivers, and under what file
/// name it is announced to the caller.
pub enum ArtifactLabel {
    LibraryArchive { file_name: String },
    Executable { file_name: String },
}

/// A reply body: diagnostic text for failures, raw bytes for artifacts.
pub enum ReplyBody {
    Text(String),
    Bytes(Vec<u8>),
}

/// The abstract HTTP answer to one compile request.
pub struct Reply {
    pub status: u16,
    pub label: Option<ArtifactLabel>,
    pub body: ReplyBody,
}

/// Mathematical model of an `ArtifactLabel`: the announced file name as a
/// character sequence.
pub enum LabelModel {
    LibraryArchive(Seq<char>),
    Executable(Seq<char>),
}

/// Mathematical model of a `ReplyBody`.
pub enum BodyModel {
    Text(Seq<char>),
    Bytes(Seq<u8>),
}

/// Mathematical model of a `Reply`.
pub struct ReplyModel {
    pub status: u16,
    pub label: Option<LabelModel>,
    pub body: BodyModel,
}

impl View for ArtifactLabel {
    type V = LabelModel;

    open spec fn view(&self) -> LabelModel {
        match self {
            ArtifactLabel::LibraryArchive { file_name } => LabelModel::LibraryArchive(
                file_name@,
            ),
            ArtifactLabel::Executable { file_name } => LabelModel::Executable(file_name@),
        }
    }
}

impl View for ReplyBody {
    type V = BodyModel;

    open spec fn view(&self) -> BodyModel {
        match self {
            ReplyBody::Text(s) => BodyModel::Text(s@),
            ReplyBody::Bytes(b) => BodyModel::Bytes(b@),
        }
    }
}

impl View for Reply {
    type V = ReplyModel;

    open spec fn view(&self) -> ReplyModel {
        ReplyModel {
            status: self.status,
            label: match self.label {
                Some(l) => Some(l@),
                None => None,
            },
            body: self.body@,
        }
    }
}

/// A reply is well formed when a success status and an artifact label come
/// together, and the status is one of the three the worker uses.
pub open spec fn reply_well_formed(r: ReplyModel) -> bool {
    &&& r.status == 200 <==> r.label is Some
    &&& r.status == 200 || r.status == 400 || r.status == 500
}

/// Every way a request can end before an artifact is delivered.  The
/// caller-supplied stages (body transport, archive extraction) are client
/// errors; the rest are server-side failures.
pub enum StageEvent {
    /// The request body could not be fully read.
    BodyUnreadable,
    /// No temporary workspace directory could be allocated.
    WorkspaceUnavailable,
    /// The archive could not be extracted into the workspace.
    UnpackRejected,
    /// The toolchain subprocess could not be started at all.
    ToolchainUnavailable,
    /// The toolchain ran and exited unsuccessfully; carries its raw
    /// standard-error bytes.
    BuildRejected { diagnostics: Vec<u8> },
    /// The toolchain reported success but no artifact was found or readable.
    ArtifactMissing,
}

/// Mathematical model of a `StageEvent`.
pub enum EventModel {
    BodyUnreadable,
    WorkspaceUnavailable,
    UnpackRejected,
    ToolchainUnavailable,
    BuildRejected(Seq<u8>),
    ArtifactMissing,
}

impl View for StageEvent {
    type V = EventModel;

    open spec fn view(&self) -> EventModel {
        match self {
            StageEvent::BodyUnreadable => EventModel::BodyUnreadable,
            StageEvent::WorkspaceUnavailable => EventModel::WorkspaceUnavailable,
            StageEvent::UnpackRejected => EventModel::UnpackRejected,
            StageEvent::ToolchainUnavailable => EventModel::ToolchainUnavailable,
            StageEvent::BuildRejected { diagnostics } => EventModel::BuildRejected(
                diagnostics@,
            ),
            StageEvent::ArtifactMissing => EventModel::ArtifactMissing,
        }
    }
}

/// What `String::from_utf8_lossy` decodes a byte sequence to.
pub uninterp spec fn lossy_of(b: Seq<u8>) -> Seq<char>;

/// Relies on `String::from_utf8_lossy`: the decoding depends on the bytes
/// alone, and valid UTF-8 input is decoded without change.
#[verifier::external_body]
fn lossy_utf8(bytes: &[u8]) -> (r: String)
    ensures
        r@ == lossy_of(bytes@),
        valid_utf8(bytes@) ==> encode_utf8(r@) == bytes@,
{
    String::from_utf8_lossy(bytes).into_owned()
}

/// The reply owed to each failure event: extraction problems and an
/// unreadable body are the caller's fault (400), everything else is a
/// server-side failure (500); a rejected build answers with the toolchain's
/// own diagnostic text, lossily decoded.
pub open spec fn failure_model(e: EventModel) -> ReplyModel {
    match e {
        EventModel::BodyUnreadable => ReplyModel {
            status: 400,
            label: None,
            body: BodyModel::Text("Failed to collect body"@),
        },
        EventModel::WorkspaceUnavailable => ReplyModel {
            status: 500,
            label: None,
            body: BodyModel::Text("Temp dir error"@),
        },
        EventModel::UnpackRejected => ReplyModel {
            status: 400,
            label: None,
            body: BodyModel::Text("Unpack failed"@),
        },
        EventModel::ToolchainUnavailable => ReplyModel {
            status: 500,
            label: None,
            body: BodyModel::Text("Cargo execution failed"@),
        },
        EventModel::BuildRejected(d) => ReplyModel {
            status: 500,
            label: None,
            body: BodyModel::Text(lossy_of(d)),
        },
        EventModel::ArtifactMissing => ReplyModel {
            status: 500,
            label: None,
            body: BodyModel::Text("No output file found"@),
        },
    }
}

/// The reply owed to a delivered artifact: success status, the label, and
/// the artifact's bytes as the body.
pub open spec fn success_model(label: LabelModel, bytes: Seq<u8>) -> ReplyModel {
    ReplyModel { status: 200, label: Some(label), body: BodyModel::Bytes(bytes) }
}

/// Build the reply for a failed request.
pub fn failure_reply(event: StageEvent) -> (r: Reply)
    ensures
        r@ == failure_model(event@),
{
    match event {
        StageEvent::BodyUnreadable => Reply {
            status: STATUS_BAD_REQUEST,
            label: None,
            body: ReplyBody::Text(String::from_str("Failed to collect body")),
        },
        StageEvent::WorkspaceUnavailable => Reply {
            status: STATUS_SERVER_ERROR,
            label: None,
            body: ReplyBody::Text(String::from_str("Temp dir error")),
        },
        StageEvent::UnpackRejected => Reply {
            status: STATUS_BAD_REQUEST,
            label: None,
            body: ReplyBody::Text(String::from_str("Unpack failed")),
        },
        StageEvent::ToolchainUnavailable => Reply {
            status: STATUS_SERVER_ERROR,
            label: None,
            body: ReplyBody::Text(String::from_str("Cargo execution failed")),
        },
        StageEvent::BuildRejected { diagnostics } => Reply {
            status: STATUS_SERVER_ERROR,
            label: None,
            body: ReplyBody::Text(lossy_utf8(diagnostics.as_slice())),
        },
        StageEvent::ArtifactMissing => Reply {
            status: STATUS_SERVER_ERROR,
            label: None,
            body: ReplyBody::Text(String::from_str("No output file found")),
        },
    }
}

/// Build the reply for a delivered artifact.
pub fn success_reply(label: ArtifactLabel, bytes: Vec<u8>) -> (r: Reply)
    ensures
        r@ == success_model(label@, bytes@),
{
    Reply { status: STATUS_OK, label: Some(label), body: ReplyBody::Bytes(bytes) }
}

/// Every failure reply is well formed: no artifact label, and the
/// client-error status exactly for the two caller-supplied stages (the
/// request body and the archive), the server-error status for all the
/// rest.
pub proof fn lemma_failure_reply_well_formed(e: EventModel)
    ensures
        reply_well_formed(failure_model(e)),
        failure_model(e).label is None,
        failure_model(e).status == 400 <==> (e is BodyUnreadable || e is UnpackRejected),
        failure_model(e).status == 500 <==> !(e is BodyUnreadable || e is UnpackRejected),
{
}

/// Every success reply is well formed: status 200 with an artifact label.
pub proof fn lemma_success_reply_well_formed(label: LabelModel, bytes: Seq<u8>)
    ensures
        reply_well_formed(success_model(label, bytes)),
{
}

/// An archive that fails to extract is answered with the client-error
/// status and a non-empty diagnostic body.
pub proof fn lemma_unpack_rejection_diagnosed()
    ensures
        failure_model(EventModel::UnpackRejected).status == 400,
        failure_model(EventModel::UnpackRejected).body matches BodyModel::Text(t)
            && t.len() > 0,
{
    reveal_strlit("Unpack failed");
}

/// A build the toolchain rejected is answered with the server-error status,
/// and the body is exactly the toolchain's diagnostic stream, lossily
/// decoded to text.
pub proof fn lemma_build_rejection_carries_diagnostics(d: Seq<u8>)
    ensures
        failure_model(EventModel::BuildRejected(d)).status == 500,
        failure_model(EventModel::BuildRejected(d)).body == BodyModel::Text(lossy_of(d)),
{
}

} // verus!
