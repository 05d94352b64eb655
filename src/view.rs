//! The presentation state, and how results of background work are applied to it.
use image::DynamicImage;
use tokio::sync::mpsc::Receiver;
use vstd::prelude::*;

verus! {

/// tokio's bounded `mpsc::Receiver`, carried opaquely: the results it holds
/// depend on other tasks, so nothing is stated of them.
#[verifier::external_type_specification]
#[verifier::external_body]
#[verifier::reject_recursive_types(T)]
pub struct ExReceiver<T>(tokio::sync::mpsc::Receiver<T>);

/// A result that a background unit of work hands to the presentation loop,
/// tagged with the epoch of the image it was started for.
pub enum TaskResult {
    /// An image was opened from `path`.
    ImageLoaded { image: DynamicImage, path: String, epoch: u64 },
    /// An operation finished after `elapsed_micros` microseconds.
    OperationCompleted { image: DynamicImage, elapsed_micros: u64, epoch: u64 },
}

/// The epoch a result was started for.
pub open spec fn result_epoch(result: TaskResult) -> u64 {
    match result {
        TaskResult::ImageLoaded { epoch, .. } => epoch,
        TaskResult::OperationCompleted { epoch, .. } => epoch,
    }
}

/// The epoch that follows `epoch`, wrapping at the top.
pub open spec fn next_epoch(epoch: u64) -> u64 {
    if epoch == u64::MAX {
        0
    } else {
        (epoch + 1) as u64
    }
}

/// The images on display and what is known of the last operation.
///
/// `epoch` changes each time a new image is opened; results started for an
/// earlier epoch belong to a superseded image and are discarded.
pub struct ViewState {
    pub image: Option<DynamicImage>,
    pub modified_image: Option<DynamicImage>,
    pub image_path: Option<String>,
    pub last_operation_micros: Option<u64>,
    pub epoch: u64,
}

/// The state after one result: a result of the current epoch fills its slots,
/// any other leaves the state as it is.
pub open spec fn after_result(state: ViewState, result: TaskResult) -> ViewState {
    if result_epoch(result) != state.epoch {
        state
    } else {
        match result {
            TaskResult::ImageLoaded { image, path, .. } => ViewState {
                image: Some(image),
                image_path: Some(path),
                ..state
            },
            TaskResult::OperationCompleted { image, elapsed_micros, .. } => ViewState {
                modified_image: Some(image),
                last_operation_micros: Some(elapsed_micros),
                ..state
            },
        }
    }
}

/// The state after results, applied in the order they were drained.
pub open spec fn after_results(state: ViewState, results: Seq<TaskResult>) -> ViewState
    decreases results.len(),
{
    if results.len() == 0 {
        state
    } else {
        after_result(after_results(state, results.drop_last()), results.last())
    }
}

/// The state when a new image is about to be opened: every slot cleared and
/// a new epoch begun.
pub open spec fn opened(state: ViewState) -> ViewState {
    ViewState {
        image: None,
        modified_image: None,
        image_path: None,
        epoch: next_epoch(state.epoch),
        ..state
    }
}

impl ViewState {
    /// Nothing loaded, nothing done yet.
    pub fn new() -> (r: Self)
        ensures
            r.image is None,
            r.modified_image is None,
            r.image_path is None,
            r.last_operation_micros is None,
            r.epoch == 0,
    {
        ViewState {
            image: None,
            modified_image: None,
            image_path: None,
            last_operation_micros: None,
            epoch: 0,
        }
    }

    /// Clears the display for an image about to be opened, and returns the
    /// epoch that its loading is tagged with.
    pub fn begin_open(&mut self) -> (epoch: u64)
        ensures
            *final(self) == opened(*old(self)),
            epoch == final(self).epoch,
    {
        self.image = None;
        self.modified_image = None;
        self.image_path = None;
        self.epoch = if self.epoch == u64::MAX {
            0
        } else {
            self.epoch + 1
        };
        self.epoch
    }

    /// Applies one result; returns whether it belonged to the current epoch.
    pub fn apply_result(&mut self, result: TaskResult) -> (applied: bool)
        ensures
            *final(self) == after_result(*old(self), result),
            applied == (result_epoch(result) == old(self).epoch),
    {
        match result {
            TaskResult::ImageLoaded { image, path, epoch } => {
                if epoch != self.epoch {
                    return false;
                }
                self.image = Some(image);
                self.image_path = Some(path);
            },
            TaskResult::OperationCompleted { image, elapsed_micros, epoch } => {
                if epoch != self.epoch {
                    return false;
                }
                self.modified_image = Some(image);
                self.last_operation_micros = Some(elapsed_micros);
            },
        }
        true
    }

    /// Applies results in the order they were drained.
    pub fn apply_results(&mut self, results: Vec<TaskResult>)
        ensures
            *final(self) == after_results(*old(self), results@),
    {
        let ghost all = results@;
        let total: usize = results.len();
        let mut rest = results;
        let mut done: usize = 0;
        while rest.len() > 0
            invariant
                done <= all.len(),
                all.len() == total,
                rest@ == all.skip(done as int),
                *self == after_results(*old(self), all.take(done as int)),
            decreases rest@.len(),
        {
            assert(done < all.len());
            let result = rest.remove(0);
            self.apply_result(result);
            proof {
                assert(all.take(done + 1).drop_last() =~= all.take(done as int));
                assert(all.take(done + 1).last() == all[done as int]);
            }
            done = done + 1;
            assert(rest@ =~= all.skip(done as int));
        }
        assert(all.take(done as int) =~= all);
    }

    /// Applies, in order, the results queued on `rx` when the call begins,
    /// without waiting for any; returns how many were drained.
    pub fn drain_results(&mut self, rx: &mut Receiver<TaskResult>) -> (drained: usize)
        ensures
            exists|results: Seq<TaskResult>|
                results.len() == drained && *final(self) == after_results(*old(self), results),
    {
        let queued = queued_results(rx);
        let ghost mut received: Seq<TaskResult> = Seq::empty();
        let mut drained: usize = 0;
        while drained < queued
            invariant
                drained <= queued,
                received.len() == drained,
                *self == after_results(*old(self), received),
            decreases queued - drained,
        {
            match try_receive(rx) {
                Some(result) => {
                    proof {
                        let before = received;
                        received = before.push(result);
                        assert(received.drop_last() =~= before);
                    }
                    self.apply_result(result);
                    drained = drained + 1;
                },
                None => break,
            }
        }
        drained
    }

    /// Makes the modified image the image worked on; returns whether there was one.
    pub fn apply_current(&mut self) -> (applied: bool)
        ensures
            applied == old(self).modified_image is Some,
            applied ==> final(self).image == old(self).modified_image && final(self).modified_image is None,
            !applied ==> *final(self) == *old(self),
            final(self).image_path == old(self).image_path,
            final(self).last_operation_micros == old(self).last_operation_micros,
            final(self).epoch == old(self).epoch,
    {
        match self.modified_image.take() {
            Some(modified) => {
                self.image = Some(modified);
                true
            },
            None => false,
        }
    }

    /// Drops the modified image.
    pub fn remove_current(&mut self)
        ensures
            *final(self) == (ViewState { modified_image: None, ..*old(self) }),
    {
        self.modified_image = None;
    }
}

/// The extensions a file dialog offers: that of the image's source file when
/// there is one, else the image types that can be opened.
pub fn file_filter_extensions(source_extension: Option<String>) -> (r: Vec<String>)
    ensures
        source_extension matches Some(ext) ==> r@.len() == 1 && r@[0]@ == ext@,
        source_extension is None ==> r@.len() == 3 && r@[0]@ == "jpg"@ && r@[1]@ == "jpeg"@
            && r@[2]@ == "png"@,
{
    broadcast use vstd::string::to_string_from_display_ensures_for_str;

    match source_extension {
        Some(ext) => vec![ext],
        None => vec!["jpg".to_string(), "jpeg".to_string(), "png".to_string()],
    }
}

/// Relies on tokio's `Receiver::len`: how many messages are queued now.
#[verifier::external_body]
fn queued_results(rx: &Receiver<TaskResult>) -> usize {
    rx.len()
}

/// Relies on tokio's `Receiver::try_recv`: the next queued message, if any,
/// without waiting.
#[verifier::external_body]
fn try_receive(rx: &mut Receiver<TaskResult>) -> Option<TaskResult> {
    rx.try_recv().ok()
}

/// Applying results never changes the epoch.
pub proof fn lemma_results_keep_epoch(state: ViewState, results: Seq<TaskResult>)
    ensures
        after_results(state, results).epoch == state.epoch,
    decreases results.len(),
{
    if results.len() > 0 {
        lemma_results_keep_epoch(state, results.drop_last());
    }
}

/// When several results are drained in one poll, the modified image shown is
/// the one of the last completion drained, if it belongs to the current image.
pub proof fn lemma_last_completion_wins(state: ViewState, results: Seq<TaskResult>)
    requires
        results.len() > 0,
        results.last() is OperationCompleted,
        result_epoch(results.last()) == state.epoch,
    ensures
        after_results(state, results).modified_image == Some(results.last()->OperationCompleted_image),
        after_results(state, results).last_operation_micros == Some(
            results.last()->OperationCompleted_elapsed_micros,
        ),
{
    lemma_results_keep_epoch(state, results.drop_last());
}

/// Results that belong to a superseded image leave the state unchanged.
pub proof fn lemma_stale_results_discarded(state: ViewState, results: Seq<TaskResult>)
    requires
        forall|i: int| 0 <= i < results.len() ==> result_epoch(#[trigger] results[i]) != state.epoch,
    ensures
        after_results(state, results) == state,
    decreases results.len(),
{
    if results.len() > 0 {
        let prefix = results.drop_last();
        assert forall|i: int| 0 <= i < prefix.len() implies result_epoch(#[trigger] prefix[i]) != state.epoch by {
            assert(prefix[i] == results[i]);
        }
        lemma_stale_results_discarded(state, prefix);
        assert(results.last() == results[results.len() - 1]);
    }
}

/// Once a new image is being opened, whatever was started for the image
/// shown before is discarded when it arrives.
pub proof fn lemma_open_discards_earlier_work(state: ViewState, results: Seq<TaskResult>)
    requires
        forall|i: int| 0 <= i < results.len() ==> result_epoch(#[trigger] results[i]) == state.epoch,
    ensures
        after_results(opened(state), results) == opened(state),
{
    lemma_stale_results_discarded(opened(state), results);
}

} // verus!
