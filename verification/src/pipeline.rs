//! The whole request pipeline as one mathematical function: from the
//! target name and a model of everything the environment did (or failed
//! to do), to the reply the caller receives.
//!
//! The executable pieces live in `reply` and `artifact`; this module ties
//! their specifications together and states the pipeline's laws.  The
//! successful-build model carries a snapshot of the toolchain's output:
//! the dependency-directory listing, whether an executable named like the
//! target is present, and each file's contents.  It describes runs in
//! which every discovered file could be read; a file that turns out
//! unreadable re-enters the pipeline as a further search (for library
//! candidates) or as an `ArtifactMissing` event.

use vstd::prelude::*;

use crate::artifact::first_rlib_at;
use crate::artifact::first_rlib_index;
use crate::artifact::lemma_first_rlib_index;
use crate::artifact::rlib_matches;
use crate::artifact::select_model;
use crate::artifact::some_rlib_in;
use crate::reply::failure_model;
use crate::reply::BodyModel;
use crate::reply::reply_well_formed;
use crate::reply::success_model;
use crate::reply::EventModel;
use crate::reply::LabelModel;
use crate::reply::ReplyModel;

verus! {

/// Everything one request's environment contributed: either the event
/// that ended the pipeline early, or the output snapshot of a successful
/// toolchain run.
pub enum OutcomeModel {
    Ended(EventModel),
    Built {
        /// File names in the toolchain's dependency output directory.
        listing: Seq<Seq<char>>,
        /// Whether the main output directory holds a file named exactly
        /// like the target.
        exe_present: bool,
        /// Contents of the output files, by file name.
        contents: Map<Seq<char>, Seq<u8>>,
    },
}

/// The file name under which a chosen artifact is read.
pub open spec fn label_file_name(l: LabelModel) -> Seq<char> {
    match l {
        LabelModel::LibraryArchive(name) => name,
        LabelModel::Executable(name) => name,
    }
}

/// The reply owed to one request: failure events map to their diagnostic
/// replies; a successful build delivers the selected artifact's bytes, or
/// the missing-artifact diagnostic when nothing is selected.
pub open spec fn pipeline_model(target: Seq<char>, outcome: OutcomeModel) -> ReplyModel {
    match outcome {
        OutcomeModel::Ended(e) => failure_model(e),
        OutcomeModel::Built { listing, exe_present, contents } => {
            match select_model(listing, target, exe_present) {
                Some(l) => success_model(l, contents[label_file_name(l)]),
                None => failure_model(EventModel::ArtifactMissing),
            }
        },
    }
}

/// Every reply the pipeline owes is well formed: success status exactly
/// when an artifact label is delivered, and only the three status codes
/// the worker uses.
pub proof fn lemma_pipeline_reply_well_formed(target: Seq<char>, outcome: OutcomeModel)
    ensures
        reply_well_formed(pipeline_model(target, outcome)),
{
}

/// Replaying a request changes nothing: the reply is a function of the
/// target name and the environment's outcomes alone, so two requests with
/// the same target and the same outcomes (as a deterministic toolchain
/// gives for the same archive bytes) receive equal replies.
pub proof fn lemma_pipeline_idempotent(
    target1: Seq<char>,
    outcome1: OutcomeModel,
    target2: Seq<char>,
    outcome2: OutcomeModel,
)
    requires
        target1 == target2,
        outcome1 == outcome2,
    ensures
        pipeline_model(target1, outcome1) == pipeline_model(target2, outcome2),
{
}

/// A successful build whose dependency listing holds a library artifact
/// for the target is answered with status 200, a library-archive label
/// whose file name is the first such entry, and that file's contents as
/// the body.
pub proof fn lemma_library_build_delivered(
    target: Seq<char>,
    listing: Seq<Seq<char>>,
    exe_present: bool,
    contents: Map<Seq<char>, Seq<u8>>,
)
    requires
        some_rlib_in(listing, target),
    ensures
        ({
            let r = pipeline_model(
                target,
                OutcomeModel::Built { listing, exe_present, contents },
            );
            let first = listing[first_rlib_index(listing, target)];
            &&& r.status == 200
            &&& r.label == Some(LabelModel::LibraryArchive(first))
            &&& rlib_matches(first, target)
            &&& r.body == BodyModel::Bytes(contents[first])
        }),
{
    lemma_first_rlib_index(listing, target);
}

/// A successful build with no library artifact but with an executable
/// named like the target is answered with status 200, an executable label
/// carrying the target name, and that executable's contents as the body.
pub proof fn lemma_executable_build_delivered(
    target: Seq<char>,
    listing: Seq<Seq<char>>,
    contents: Map<Seq<char>, Seq<u8>>,
)
    requires
        !some_rlib_in(listing, target),
    ensures
        ({
            let r = pipeline_model(
                target,
                OutcomeModel::Built { listing, exe_present: true, contents },
            );
            &&& r.status == 200
            &&& r.label == Some(LabelModel::Executable(target))
            &&& r.body == BodyModel::Bytes(contents[target])
        }),
{
}

/// A successful build that produced neither kind of artifact is answered
/// with the missing-artifact diagnostic: a server-side failure, never a
/// fabricated artifact.
pub proof fn lemma_missing_artifact_diagnosed(
    target: Seq<char>,
    listing: Seq<Seq<char>>,
    contents: Map<Seq<char>, Seq<u8>>,
)
    requires
        !some_rlib_in(listing, target),
    ensures
        pipeline_model(
            target,
            OutcomeModel::Built { listing, exe_present: false, contents },
        ) == failure_model(EventModel::ArtifactMissing),
        pipeline_model(
            target,
            OutcomeModel::Built { listing, exe_present: false, contents },
        ).status == 500,
{
}

/// A toolchain run that did not succeed never yields an artifact: the
/// reply to any failure event carries no label and no success status.
pub proof fn lemma_failed_build_never_delivers(target: Seq<char>, e: EventModel)
    ensures
        pipeline_model(target, OutcomeModel::Ended(e)).label is None,
        pipeline_model(target, OutcomeModel::Ended(e)).status != 200,
{
    crate::reply::lemma_failure_reply_well_formed(e);
}

/// The library-first policy: whenever a library artifact is present, the
/// reply labels a library archive, whatever the executable search would
/// have found.
pub proof fn lemma_library_takes_priority(
    target: Seq<char>,
    listing: Seq<Seq<char>>,
    exe_present: bool,
    contents: Map<Seq<char>, Seq<u8>>,
)
    requires
        some_rlib_in(listing, target),
    ensures
        pipeline_model(
            target,
            OutcomeModel::Built { listing, exe_present, contents },
        ).label matches Some(l) && l is LibraryArchive,
{
    lemma_first_rlib_index(listing, target);
}

} // verus!
