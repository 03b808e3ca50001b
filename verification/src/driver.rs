//! The run over the catalog, photo by photo: what to do next with a photo,
//! given how the last step went. The caller reads and writes the files; the
//! decisions are made here.

use crate::metadata::get_metadata;
use crate::metadata::is_complete;
use crate::metadata::MetadataError;
use crate::metadata::PhotoInfo;
use vstd::prelude::*;

verus! {

/// How a photo's processing ended.
#[derive(Clone, Copy, Debug, PartialEq, Eq, Structural)]
pub enum Outcome {
    /// The artifact was there already: nothing was read, made or written.
    AlreadyGenerated,
    /// A caption is empty: the photo is not eligible.
    IncompleteMetadata,
    /// The metadata could not be read.
    MetadataFailed,
    /// The source image could not be decoded, scaled or encoded.
    NormalizeFailed,
    /// The composed image could not be rendered or written.
    RenderFailed,
    /// The artifact was rendered and written.
    Generated,
}

/// What is to be done next with a photo.
#[derive(Clone, Copy, Debug, PartialEq, Eq, Structural)]
pub enum Step {
    /// Look whether the artifact exists.
    CheckArtifact,
    /// Read the metadata and check it.
    LoadMetadata,
    /// Read the source image and keep its scaled copy in the temporary file.
    Normalize,
    /// Render the composed image and write the artifact.
    Render,
    /// Nothing: the photo is done.
    Done(Outcome),
}

/// How a step went.
#[derive(Clone, Copy, Debug, PartialEq, Eq, Structural)]
pub enum Event {
    ArtifactExists,
    ArtifactMissing,
    MetadataComplete,
    MetadataIncomplete,
    MetadataUnreadable,
    Normalized,
    NormalizeFailed,
    Rendered,
    RenderFailed,
}

/// The totals of a run.
#[derive(Clone, Copy, Debug, PartialEq, Eq, Structural)]
pub struct Summary {
    pub generated: usize,
    pub skipped: usize,
    pub failed: usize,
}

/// The step that follows `step` once `event` was its result. An event that
/// is no result of the step leaves the step to be done.
pub open spec fn next_step(step: Step, event: Event) -> Step {
    match (step, event) {
        (Step::CheckArtifact, Event::ArtifactExists) => Step::Done(Outcome::AlreadyGenerated),
        (Step::CheckArtifact, Event::ArtifactMissing) => Step::LoadMetadata,
        (Step::LoadMetadata, Event::MetadataComplete) => Step::Normalize,
        (Step::LoadMetadata, Event::MetadataIncomplete) => Step::Done(
            Outcome::IncompleteMetadata,
        ),
        (Step::LoadMetadata, Event::MetadataUnreadable) => Step::Done(Outcome::MetadataFailed),
        (Step::Normalize, Event::Normalized) => Step::Render,
        (Step::Normalize, Event::NormalizeFailed) => Step::Done(Outcome::NormalizeFailed),
        (Step::Render, Event::Rendered) => Step::Done(Outcome::Generated),
        (Step::Render, Event::RenderFailed) => Step::Done(Outcome::RenderFailed),
        _ => step,
    }
}

/// The first step of every photo.
pub fn first_step() -> (step: Step)
    ensures
        step == Step::CheckArtifact,
{
    Step::CheckArtifact
}

/// Decides what is to be done next with a photo.
pub fn advance(step: Step, event: Event) -> (next: Step)
    ensures
        next == next_step(step, event),
{
    match step {
        Step::CheckArtifact => match event {
            Event::ArtifactExists => Step::Done(Outcome::AlreadyGenerated),
            Event::ArtifactMissing => Step::LoadMetadata,
            _ => step,
        },
        Step::LoadMetadata => match event {
            Event::MetadataComplete => Step::Normalize,
            Event::MetadataIncomplete => Step::Done(Outcome::IncompleteMetadata),
            Event::MetadataUnreadable => Step::Done(Outcome::MetadataFailed),
            _ => step,
        },
        Step::Normalize => match event {
            Event::Normalized => Step::Render,
            Event::NormalizeFailed => Step::Done(Outcome::NormalizeFailed),
            _ => step,
        },
        Step::Render => match event {
            Event::Rendered => Step::Done(Outcome::Generated),
            Event::RenderFailed => Step::Done(Outcome::RenderFailed),
            _ => step,
        },
        Step::Done(_) => step,
    }
}

/// How the loading of a photo's metadata went, by what was read: metadata
/// that could not be read fails the photo, metadata without a caption in
/// every language makes it ineligible, and complete metadata is handed on.
pub fn metadata_loaded(loaded: Result<PhotoInfo, MetadataError>) -> (checked: (
    Event,
    Option<PhotoInfo>,
))
    ensures
        checked == match loaded {
            Ok(info) => if is_complete(info@) {
                (Event::MetadataComplete, Some(info))
            } else {
                (Event::MetadataIncomplete, None)
            },
            Err(_) => (Event::MetadataUnreadable, None),
        },
{
    match loaded {
        Ok(info) => match get_metadata(info) {
            Some(info) => (Event::MetadataComplete, Some(info)),
            None => (Event::MetadataIncomplete, None),
        },
        Err(_) => (Event::MetadataUnreadable, None),
    }
}

/// Whether an outcome counts as generated, as skipped or as failed.
pub open spec fn is_generated(outcome: Outcome) -> bool {
    outcome == Outcome::Generated
}

pub open spec fn is_skipped(outcome: Outcome) -> bool {
    outcome == Outcome::AlreadyGenerated || outcome == Outcome::IncompleteMetadata
}

pub open spec fn is_failed(outcome: Outcome) -> bool {
    outcome == Outcome::MetadataFailed || outcome == Outcome::NormalizeFailed || outcome
        == Outcome::RenderFailed
}

/// How many of the outcomes meet `kind`.
pub open spec fn count(outcomes: Seq<Outcome>, kind: spec_fn(Outcome) -> bool) -> nat
    decreases outcomes.len(),
{
    if outcomes.len() == 0 {
        0
    } else {
        count(outcomes.drop_last(), kind) + if kind(outcomes.last()) {
            1nat
        } else {
            0nat
        }
    }
}

/// Every outcome is counted once.
pub proof fn lemma_counts_add_up(outcomes: Seq<Outcome>)
    ensures
        count(outcomes, |o: Outcome| is_generated(o)) + count(outcomes, |o: Outcome| is_skipped(o))
            + count(outcomes, |o: Outcome| is_failed(o)) == outcomes.len(),
    decreases outcomes.len(),
{
    if outcomes.len() > 0 {
        lemma_counts_add_up(outcomes.drop_last());
    }
}

/// Adds up a run: how many photos were generated, skipped and failed.
pub fn summarize(outcomes: &Vec<Outcome>) -> (summary: Summary)
    ensures
        summary.generated == count(outcomes@, |o: Outcome| is_generated(o)),
        summary.skipped == count(outcomes@, |o: Outcome| is_skipped(o)),
        summary.failed == count(outcomes@, |o: Outcome| is_failed(o)),
        summary.generated + summary.skipped + summary.failed == outcomes@.len(),
{
    let mut summary = Summary { generated: 0, skipped: 0, failed: 0 };
    let mut i: usize = 0;
    while i < outcomes.len()
        invariant
            i <= outcomes.len(),
            summary.generated == count(outcomes@.take(i as int), |o: Outcome| is_generated(o)),
            summary.skipped == count(outcomes@.take(i as int), |o: Outcome| is_skipped(o)),
            summary.failed == count(outcomes@.take(i as int), |o: Outcome| is_failed(o)),
            summary.generated + summary.skipped + summary.failed == i,
        decreases outcomes.len() - i,
    {
        proof {
            assert(outcomes@.take(i + 1).drop_last() =~= outcomes@.take(i as int));
        }
        match outcomes[i] {
            Outcome::Generated => {
                summary.generated = summary.generated + 1;
            },
            Outcome::AlreadyGenerated | Outcome::IncompleteMetadata => {
                summary.skipped = summary.skipped + 1;
            },
            Outcome::MetadataFailed | Outcome::NormalizeFailed | Outcome::RenderFailed => {
                summary.failed = summary.failed + 1;
            },
        }
        i = i + 1;
    }
    proof {
        assert(outcomes@.take(outcomes@.len() as int) =~= outcomes@);
    }
    summary
}

/// How the work on one photo goes whenever it is tried: whether its metadata
/// can be read and has every caption, whether its source image normalizes,
/// and whether its composed image renders and is written.
pub struct Answers {
    pub metadata_readable: bool,
    pub metadata_complete: bool,
    pub normalizes: bool,
    pub renders: bool,
}

/// The result of a step on a photo whose artifact exists or not and whose
/// work goes as `answers` say.
pub open spec fn answer(step: Step, artifact_exists: bool, answers: Answers) -> Event {
    match step {
        Step::CheckArtifact => if artifact_exists {
            Event::ArtifactExists
        } else {
            Event::ArtifactMissing
        },
        Step::LoadMetadata => if !answers.metadata_readable {
            Event::MetadataUnreadable
        } else if answers.metadata_complete {
            Event::MetadataComplete
        } else {
            Event::MetadataIncomplete
        },
        Step::Normalize => if answers.normalizes {
            Event::Normalized
        } else {
            Event::NormalizeFailed
        },
        Step::Render => if answers.renders {
            Event::Rendered
        } else {
            Event::RenderFailed
        },
        Step::Done(_) => Event::ArtifactExists,
    }
}

/// The step that a photo stands at after at most `turns` more steps were
/// done, each followed by the one that `next_step` names.
pub open spec fn settle(step: Step, artifact_exists: bool, answers: Answers, turns: nat) -> Step
    decreases turns,
{
    if turns == 0 || step is Done {
        step
    } else {
        settle(
            next_step(step, answer(step, artifact_exists, answers)),
            artifact_exists,
            answers,
            (turns - 1) as nat,
        )
    }
}

/// Whether the step `wanted` is among the steps done on the way from `step`.
pub open spec fn visits(
    step: Step,
    wanted: Step,
    artifact_exists: bool,
    answers: Answers,
    turns: nat,
) -> bool
    decreases turns,
{
    step == wanted || (turns > 0 && !(step is Done) && visits(
        next_step(step, answer(step, artifact_exists, answers)),
        wanted,
        artifact_exists,
        answers,
        (turns - 1) as nat,
    ))
}

/// No photo takes more than this many steps.
pub open spec fn max_steps() -> nat {
    4
}

/// How the processing of a photo ends.
pub open spec fn outcome_of(artifact_exists: bool, answers: Answers) -> Outcome {
    match settle(Step::CheckArtifact, artifact_exists, answers, max_steps()) {
        Step::Done(outcome) => outcome,
        _ => Outcome::RenderFailed,
    }
}

/// Every photo is done after four steps at most, and ends at the first thing
/// that stands in its way: an artifact that exists, metadata that cannot be
/// read or lacks a caption, a source that does not normalize, a composed
/// image that does not render. Where nothing does, it is generated.
pub proof fn lemma_photo_ends(artifact_exists: bool, answers: Answers)
    ensures
        settle(Step::CheckArtifact, artifact_exists, answers, max_steps()) == Step::Done(
            outcome_of(artifact_exists, answers),
        ),
        outcome_of(artifact_exists, answers) == if artifact_exists {
            Outcome::AlreadyGenerated
        } else if !answers.metadata_readable {
            Outcome::MetadataFailed
        } else if !answers.metadata_complete {
            Outcome::IncompleteMetadata
        } else if !answers.normalizes {
            Outcome::NormalizeFailed
        } else if !answers.renders {
            Outcome::RenderFailed
        } else {
            Outcome::Generated
        },
{
    reveal_with_fuel(settle, 5);
}

/// A photo whose artifact exists is left alone: its metadata is not read,
/// its source is not normalized, nothing is rendered.
pub proof fn lemma_existing_artifact_is_kept(answers: Answers)
    ensures
        outcome_of(true, answers) == Outcome::AlreadyGenerated,
        !visits(Step::CheckArtifact, Step::LoadMetadata, true, answers, max_steps()),
        !visits(Step::CheckArtifact, Step::Normalize, true, answers, max_steps()),
        !visits(Step::CheckArtifact, Step::Render, true, answers, max_steps()),
{
    reveal_with_fuel(settle, 5);
    reveal_with_fuel(visits, 5);
}

/// A photo is rendered only where it had no artifact, and it has one
/// afterwards exactly where the rendering succeeded.
pub proof fn lemma_render_is_the_last_step(artifact_exists: bool, answers: Answers)
    ensures
        visits(Step::CheckArtifact, Step::Render, artifact_exists, answers, max_steps()) == (
        outcome_of(artifact_exists, answers) == Outcome::Generated || outcome_of(
            artifact_exists,
            answers,
        ) == Outcome::RenderFailed),
{
    reveal_with_fuel(settle, 5);
    reveal_with_fuel(visits, 5);
}

/// How a run over the catalog ends for each photo. `store` holds the places
/// in the catalog of the photos whose artifact exists when the run starts;
/// `answers` says for each photo how its work goes.
pub open spec fn run_outcomes(store: Set<int>, answers: Seq<Answers>) -> Seq<Outcome> {
    Seq::new(answers.len(), |i: int| outcome_of(store.contains(i), answers[i]))
}

/// The photos whose artifact exists when the run has ended.
pub open spec fn store_after(store: Set<int>, answers: Seq<Answers>) -> Set<int> {
    Set::new(
        |i: int|
            store.contains(i) || (0 <= i < answers.len() && outcome_of(
                store.contains(i),
                answers[i],
            ) == Outcome::Generated),
    )
}

/// A run never takes an artifact away, and leaves one for every photo that
/// it generated.
pub proof fn lemma_run_keeps_artifacts(store: Set<int>, answers: Seq<Answers>)
    ensures
        store.subset_of(store_after(store, answers)),
        forall|i: int|
            0 <= i < answers.len() ==> (#[trigger] store_after(store, answers).contains(i) <==> (
            is_generated(run_outcomes(store, answers)[i]) || run_outcomes(store, answers)[i]
                == Outcome::AlreadyGenerated)),
{
    assert forall|i: int| 0 <= i < answers.len() implies (#[trigger] store_after(
        store,
        answers,
    ).contains(i) <==> (is_generated(run_outcomes(store, answers)[i]) || run_outcomes(
        store,
        answers,
    )[i] == Outcome::AlreadyGenerated)) by {
        lemma_photo_ends(store.contains(i), answers[i]);
    }
}

/// Running twice over one catalog: the second run generates nothing and
/// leaves the artifacts as the first run left them. A photo that has its
/// artifact after the first run is skipped for it in the second, a photo
/// that has none ends as it did before, and the second run renders only
/// what failed to render in the first.
pub proof fn lemma_second_run_changes_nothing(store: Set<int>, answers: Seq<Answers>)
    ensures
        ({
            let first = run_outcomes(store, answers);
            let kept = store_after(store, answers);
            let second = run_outcomes(kept, answers);
            &&& store_after(kept, answers) == kept
            &&& forall|i: int|
                0 <= i < answers.len() ==> #[trigger] second[i] == if kept.contains(i) {
                    Outcome::AlreadyGenerated
                } else {
                    first[i]
                }
            &&& forall|i: int|
                0 <= i < answers.len() && visits(
                    Step::CheckArtifact,
                    Step::Render,
                    kept.contains(i),
                    #[trigger] answers[i],
                    max_steps(),
                ) ==> first[i] == Outcome::RenderFailed
        }),
{
    let first = run_outcomes(store, answers);
    let kept = store_after(store, answers);
    let second = run_outcomes(kept, answers);
    assert forall|i: int| 0 <= i < answers.len() implies #[trigger] second[i] == if kept.contains(
        i,
    ) {
        Outcome::AlreadyGenerated
    } else {
        first[i]
    } by {
        lemma_photo_ends(store.contains(i), answers[i]);
        lemma_photo_ends(kept.contains(i), answers[i]);
    }
    assert forall|i: int|
        0 <= i < answers.len() && visits(
            Step::CheckArtifact,
            Step::Render,
            kept.contains(i),
            #[trigger] answers[i],
            max_steps(),
        ) implies first[i] == Outcome::RenderFailed by {
        lemma_photo_ends(store.contains(i), answers[i]);
        lemma_photo_ends(kept.contains(i), answers[i]);
        lemma_render_is_the_last_step(kept.contains(i), answers[i]);
    }
    assert forall|i: int| store_after(kept, answers).contains(i) == kept.contains(i) by {
        if 0 <= i < answers.len() {
            lemma_photo_ends(store.contains(i), answers[i]);
            lemma_photo_ends(kept.contains(i), answers[i]);
        }
    }
    assert(store_after(kept, answers) =~= kept);
}

/// Where the first run left an artifact for every photo, the second run
/// skips every photo for its artifact: it reads no metadata, normalizes no
/// source and renders nothing.
pub proof fn lemma_second_run_is_idle(store: Set<int>, answers: Seq<Answers>)
    requires
        forall|i: int|
            0 <= i < answers.len() ==> is_generated(#[trigger] run_outcomes(store, answers)[i])
                || run_outcomes(store, answers)[i] == Outcome::AlreadyGenerated,
    ensures
        ({
            let kept = store_after(store, answers);
            let second = run_outcomes(kept, answers);
            &&& store_after(kept, answers) == kept
            &&& forall|i: int|
                0 <= i < answers.len() ==> #[trigger] second[i] == Outcome::AlreadyGenerated
            &&& forall|i: int|
                0 <= i < answers.len() ==> {
                    &&& !visits(
                        Step::CheckArtifact,
                        Step::LoadMetadata,
                        kept.contains(i),
                        #[trigger] answers[i],
                        max_steps(),
                    )
                    &&& !visits(
                        Step::CheckArtifact,
                        Step::Normalize,
                        kept.contains(i),
                        answers[i],
                        max_steps(),
                    )
                    &&& !visits(
                        Step::CheckArtifact,
                        Step::Render,
                        kept.contains(i),
                        answers[i],
                        max_steps(),
                    )
                }
        }),
{
    let first = run_outcomes(store, answers);
    let kept = store_after(store, answers);
    let second = run_outcomes(kept, answers);
    lemma_second_run_changes_nothing(store, answers);
    lemma_run_keeps_artifacts(store, answers);
    assert forall|i: int| 0 <= i < answers.len() implies kept.contains(i) by {
        assert(is_generated(first[i]) || first[i] == Outcome::AlreadyGenerated);
    }
    assert forall|i: int| 0 <= i < answers.len() implies #[trigger] second[i]
        == Outcome::AlreadyGenerated by {
        assert(kept.contains(i));
    }
    assert forall|i: int| 0 <= i < answers.len() implies {
        &&& !visits(
            Step::CheckArtifact,
            Step::LoadMetadata,
            kept.contains(i),
            #[trigger] answers[i],
            max_steps(),
        )
        &&& !visits(Step::CheckArtifact, Step::Normalize, kept.contains(i), answers[i], max_steps())
        &&& !visits(Step::CheckArtifact, Step::Render, kept.contains(i), answers[i], max_steps())
    } by {
        assert(kept.contains(i));
        lemma_existing_artifact_is_kept(answers[i]);
    }
}

} // verus!
