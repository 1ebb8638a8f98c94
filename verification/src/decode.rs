//! The decisions of a synchronous single-frame decode.
//!
//! A decode submits a read job, waits for the SDK to finish it, then looks
//! at the completion events that arrived; it then configures the frame,
//! submits a decode-and-process job, waits again, and looks at the events
//! once more. The submitting and waiting belong to the caller; what is
//! decided from the events is here.

use vstd::prelude::*;

use crate::error::{BrawError, HResult};

verus! {

/// A completion event as the SDK's callbacks deliver it, with the frame
/// (`F`) or processed image (`I`) it carries, if any.
pub enum DecoderEvent<F, I> {
    Read { result: HResult, frame: Option<F> },
    Process { result: HResult, image: Option<I> },
}

/// The code of the first read event, in order of arrival, that reports a
/// failure.
pub open spec fn first_failed_read<F, I>(events: Seq<DecoderEvent<F, I>>) -> Option<HResult>
    decreases events.len(),
{
    if events.len() == 0 {
        None
    } else {
        match events[0] {
            DecoderEvent::Read { result, .. } => {
                if !result.succeeded() {
                    Some(result)
                } else {
                    first_failed_read(events.drop_first())
                }
            },
            DecoderEvent::Process { .. } => first_failed_read(events.drop_first()),
        }
    }
}

/// The frame carried by the last read event, in order of arrival, or
/// `None` where no read event arrived.
pub open spec fn latest_read<F, I>(events: Seq<DecoderEvent<F, I>>) -> Option<Option<F>>
    decreases events.len(),
{
    if events.len() == 0 {
        None
    } else {
        match latest_read(events.drop_first()) {
            Some(frame) => Some(frame),
            None => match events[0] {
                DecoderEvent::Read { frame, .. } => Some(frame),
                DecoderEvent::Process { .. } => None,
            },
        }
    }
}

/// The code of the first process event, in order of arrival, that reports
/// a failure.
pub open spec fn first_failed_process<F, I>(events: Seq<DecoderEvent<F, I>>) -> Option<HResult>
    decreases events.len(),
{
    if events.len() == 0 {
        None
    } else {
        match events[0] {
            DecoderEvent::Process { result, .. } => {
                if !result.succeeded() {
                    Some(result)
                } else {
                    first_failed_process(events.drop_first())
                }
            },
            DecoderEvent::Read { .. } => first_failed_process(events.drop_first()),
        }
    }
}

/// The image carried by the last process event, in order of arrival, or
/// `None` where no process event arrived.
pub open spec fn latest_process<F, I>(events: Seq<DecoderEvent<F, I>>) -> Option<Option<I>>
    decreases events.len(),
{
    if events.len() == 0 {
        None
    } else {
        match latest_process(events.drop_first()) {
            Some(image) => Some(image),
            None => match events[0] {
                DecoderEvent::Process { image, .. } => Some(image),
                DecoderEvent::Read { .. } => None,
            },
        }
    }
}

/// The first failed read, as `first_failed_read` finds it, is the read
/// event at the first index `i` whose code is negative, whatever frame it
/// carries.
pub proof fn lemma_first_failed_read_at<F, I>(events: Seq<DecoderEvent<F, I>>, i: int)
    requires
        0 <= i < events.len(),
        events[i] is Read,
        events[i]->Read_result.0 < 0,
        forall|j: int| 0 <= j < i ==> !(events[j] is Read && events[j]->Read_result.0 < 0),
    ensures
        first_failed_read(events) == Some(events[i]->Read_result),
    decreases i,
{
    if i > 0 {
        assert(!(events[0] is Read && events[0]->Read_result.0 < 0));
        lemma_first_failed_read_at(events.drop_first(), i - 1);
    }
}

/// Where no read event has a negative code, no read has failed.
pub proof fn lemma_no_failed_read<F, I>(events: Seq<DecoderEvent<F, I>>)
    requires
        forall|j: int| 0 <= j < events.len() ==> !(events[j] is Read && events[j]->Read_result.0 < 0),
    ensures
        first_failed_read(events) is None,
    decreases events.len(),
{
    if events.len() > 0 {
        assert(!(events[0] is Read && events[0]->Read_result.0 < 0));
        lemma_no_failed_read(events.drop_first());
    }
}

/// The latest read, as `latest_read` finds it, is the frame of the read
/// event at the last index `i` that holds one, or nothing where no read
/// event arrived.
pub proof fn lemma_latest_read_at<F, I>(events: Seq<DecoderEvent<F, I>>, i: int)
    requires
        -1 <= i < events.len(),
        i >= 0 ==> events[i] is Read,
        forall|j: int| i < j < events.len() ==> !(events[j] is Read),
    ensures
        latest_read(events) == (if i >= 0 {
            Some(events[i]->Read_frame)
        } else {
            None
        }),
    decreases events.len(),
{
    if events.len() > 0 {
        let rest = events.drop_first();
        if i >= 1 {
            lemma_latest_read_at(rest, i - 1);
        } else {
            assert forall|j: int| -1 < j < rest.len() implies !(rest[j] is Read) by {
                assert(rest[j] == events[j + 1]);
            }
            lemma_latest_read_at(rest, -1);
        }
    }
}

/// The first failed process, as `first_failed_process` finds it, is the
/// process event at the first index `i` whose code is negative, whatever
/// image it carries.
pub proof fn lemma_first_failed_process_at<F, I>(events: Seq<DecoderEvent<F, I>>, i: int)
    requires
        0 <= i < events.len(),
        events[i] is Process,
        events[i]->Process_result.0 < 0,
        forall|j: int|
            0 <= j < i ==> !(events[j] is Process && events[j]->Process_result.0 < 0),
    ensures
        first_failed_process(events) == Some(events[i]->Process_result),
    decreases i,
{
    if i > 0 {
        assert(!(events[0] is Process && events[0]->Process_result.0 < 0));
        lemma_first_failed_process_at(events.drop_first(), i - 1);
    }
}

/// Where no process event has a negative code, no process has failed.
pub proof fn lemma_no_failed_process<F, I>(events: Seq<DecoderEvent<F, I>>)
    requires
        forall|j: int|
            0 <= j < events.len() ==> !(events[j] is Process && events[j]->Process_result.0 < 0),
    ensures
        first_failed_process(events) is None,
    decreases events.len(),
{
    if events.len() > 0 {
        assert(!(events[0] is Process && events[0]->Process_result.0 < 0));
        lemma_no_failed_process(events.drop_first());
    }
}

/// The latest process, as `latest_process` finds it, is the image of the
/// process event at the last index `i` that holds one, or nothing where no
/// process event arrived.
pub proof fn lemma_latest_process_at<F, I>(events: Seq<DecoderEvent<F, I>>, i: int)
    requires
        -1 <= i < events.len(),
        i >= 0 ==> events[i] is Process,
        forall|j: int| i < j < events.len() ==> !(events[j] is Process),
    ensures
        latest_process(events) == (if i >= 0 {
            Some(events[i]->Process_image)
        } else {
            None
        }),
    decreases events.len(),
{
    if events.len() > 0 {
        let rest = events.drop_first();
        if i >= 1 {
            lemma_latest_process_at(rest, i - 1);
        } else {
            assert forall|j: int| -1 < j < rest.len() implies !(rest[j] is Process) by {
                assert(rest[j] == events[j + 1]);
            }
            lemma_latest_process_at(rest, -1);
        }
    }
}

/// The message of a failed read: `read failed (HRESULT=0x........)`.
pub open spec fn read_failed_message(result: HResult) -> Seq<char> {
    "read failed ("@ + result.text() + ")"@
}

/// The message of a failed process: `process failed (HRESULT=0x........)`.
pub open spec fn process_failed_message(result: HResult) -> Seq<char> {
    "process failed ("@ + result.text() + ")"@
}

/// The clip a decode reads from: the open clip, or the error `no clip is
/// open` where none is.
pub fn require_open_clip<K>(clip: Option<K>) -> (r: Result<K, BrawError>)
    ensures
        match clip {
            Some(k) => r == Ok::<K, BrawError>(k),
            None => r matches Err(e) && e@ == "no clip is open"@,
        },
{
    match clip {
        Some(k) => Ok(k),
        None => Err(BrawError::new("no clip is open")),
    }
}

/// `prefix`, the rendering of `result`, and `)`.
fn failure(prefix: &str, result: HResult) -> (e: BrawError)
    ensures
        e@ == prefix@ + result.text() + ")"@,
{
    let mut s = String::from_str(prefix);
    let code = result.to_string();
    s.append(code.as_str());
    s.append(")");
    BrawError::from_message(s)
}

/// What the read phase of a decode yields, given the events that arrived
/// once the read job was flushed: the first failed read is reported as
/// `read failed (…)`; otherwise the frame of the last read event, or the
/// error `on_read_complete delivered no frame` where there is none. Process
/// events are dropped.
pub fn read_phase_outcome<F, I>(events: Vec<DecoderEvent<F, I>>) -> (r: Result<F, BrawError>)
    ensures
        match first_failed_read(events@) {
            Some(code) => r matches Err(e) && e@ == read_failed_message(code),
            None => match latest_read(events@) {
                Some(Some(frame)) => r == Ok::<F, BrawError>(frame),
                _ => r matches Err(e) && e@ == "on_read_complete delivered no frame"@,
            },
        },        // A read event with a negative code decides the outcome, whatever it carries:
        // the first such event, in order of arrival, is reported.
        forall|i: int|
            #![trigger events@[i]]
            0 <= i < events@.len() && events@[i] is Read && events@[i]->Read_result.0 < 0 && (
            forall|j: int|
                0 <= j < i ==> !(events@[j] is Read && events@[j]->Read_result.0 < 0))
                ==> (r matches Err(e) && e@ == "read failed ("@ + events@[i]->Read_result.text()
                + ")"@),
        // Otherwise the frame carried by the last read event is the outcome.
        (forall|j: int|
            0 <= j < events@.len() ==> !(events@[j] is Read && events@[j]->Read_result.0 < 0))
            ==> forall|i: int|
            #![trigger events@[i]]
            0 <= i < events@.len() && events@[i] is Read && (forall|j: int|
                i < j < events@.len() ==> !(events@[j] is Read)) ==> match events@[i]->Read_frame {
                Some(x) => r == Ok::<F, BrawError>(x),
                None => r matches Err(e) && e@ == "on_read_complete delivered no frame"@,
            },
        // And where no read event arrived at all, there is nothing to hand on.
        (forall|j: int| 0 <= j < events@.len() ==> !(events@[j] is Read)) ==> (r matches Err(e)
            && e@ == "on_read_complete delivered no frame"@),
{
    let ghost all = events@;
    let mut events = events;
    let mut failed: Option<HResult> = None;
    let mut latest: Option<Option<F>> = None;
    while events.len() > 0
        invariant
            events@ == all.take(events.len() as int),
            events.len() <= all.len(),
            failed == first_failed_read(all.skip(events.len() as int)),
            latest == latest_read(all.skip(events.len() as int)),
        decreases events.len(),
    {
        let ghost k = events.len() as int;
        let e = events.pop().unwrap();
        proof {
            assert(all.skip(k - 1).drop_first() =~= all.skip(k));
            assert(all.skip(k - 1)[0] == all[k - 1]);
            assert(events@ =~= all.take(k - 1));
        }
        match e {
            DecoderEvent::Read { result, frame } => {
                if result.is_err() {
                    failed = Some(result);
                }
                if latest.is_none() {
                    latest = Some(frame);
                }
            },
            DecoderEvent::Process { .. } => {},
        }
    }
    proof {
        assert(all.skip(0) =~= all);
        assert forall|i: int|
            0 <= i < all.len() && all[i] is Read && all[i]->Read_result.0 < 0 && (forall|j: int|
                0 <= j < i ==> !(all[j] is Read && all[j]->Read_result.0 < 0)) implies first_failed_read(all)
            == Some(all[i]->Read_result) by {
            lemma_first_failed_read_at(all, i);
        }
        if forall|j: int| 0 <= j < all.len() ==> !(all[j] is Read && all[j]->Read_result.0 < 0) {
            lemma_no_failed_read(all);
        }
        assert forall|i: int|
            0 <= i < all.len() && all[i] is Read && (forall|j: int|
                i < j < all.len() ==> !(all[j] is Read)) implies latest_read(all) == Some(
            all[i]->Read_frame,
        ) by {
            lemma_latest_read_at(all, i);
        }
        if forall|j: int| 0 <= j < all.len() ==> !(all[j] is Read) {
            lemma_latest_read_at(all, -1);
        }
    }
    match failed {
        Some(code) => {
            proof {
                reveal_strlit("read failed (");
            }
            Err(failure("read failed (", code))
        },
        None => match latest {
            Some(Some(frame)) => Ok(frame),
            _ => Err(BrawError::new("on_read_complete delivered no frame")),
        },
    }
}

/// What the process phase of a decode yields, given the events that
/// arrived once the decode-and-process job was flushed: the first failed
/// process is reported as `process failed (…)`; otherwise the image of the
/// last process event, or the error `on_process_complete delivered no
/// image` where there is none. Read events are dropped.
pub fn process_phase_outcome<F, I>(events: Vec<DecoderEvent<F, I>>) -> (r: Result<I, BrawError>)
    ensures
        match first_failed_process(events@) {
            Some(code) => r matches Err(e) && e@ == process_failed_message(code),
            None => match latest_process(events@) {
                Some(Some(image)) => r == Ok::<I, BrawError>(image),
                _ => r matches Err(e) && e@ == "on_process_complete delivered no image"@,
            },
        },        // A process event with a negative code decides the outcome, whatever it carries:
        // the first such event, in order of arrival, is reported.
        forall|i: int|
            #![trigger events@[i]]
            0 <= i < events@.len() && events@[i] is Process && events@[i]->Process_result.0 < 0 && (
            forall|j: int|
                0 <= j < i ==> !(events@[j] is Process && events@[j]->Process_result.0 < 0))
                ==> (r matches Err(e) && e@ == "process failed ("@ + events@[i]->Process_result.text()
                + ")"@),
        // Otherwise the image carried by the last process event is the outcome.
        (forall|j: int|
            0 <= j < events@.len() ==> !(events@[j] is Process && events@[j]->Process_result.0 < 0))
            ==> forall|i: int|
            #![trigger events@[i]]
            0 <= i < events@.len() && events@[i] is Process && (forall|j: int|
                i < j < events@.len() ==> !(events@[j] is Process)) ==> match events@[i]->Process_image {
                Some(x) => r == Ok::<I, BrawError>(x),
                None => r matches Err(e) && e@ == "on_process_complete delivered no image"@,
            },
        // And where no process event arrived at all, there is nothing to hand on.
        (forall|j: int| 0 <= j < events@.len() ==> !(events@[j] is Process)) ==> (r matches Err(e)
            && e@ == "on_process_complete delivered no image"@),
{
    let ghost all = events@;
    let mut events = events;
    let mut failed: Option<HResult> = None;
    let mut latest: Option<Option<I>> = None;
    while events.len() > 0
        invariant
            events@ == all.take(events.len() as int),
            events.len() <= all.len(),
            failed == first_failed_process(all.skip(events.len() as int)),
            latest == latest_process(all.skip(events.len() as int)),
        decreases events.len(),
    {
        let ghost k = events.len() as int;
        let e = events.pop().unwrap();
        proof {
            assert(all.skip(k - 1).drop_first() =~= all.skip(k));
            assert(all.skip(k - 1)[0] == all[k - 1]);
            assert(events@ =~= all.take(k - 1));
        }
        match e {
            DecoderEvent::Process { result, image } => {
                if result.is_err() {
                    failed = Some(result);
                }
                if latest.is_none() {
                    latest = Some(image);
                }
            },
            DecoderEvent::Read { .. } => {},
        }
    }
    proof {
        assert(all.skip(0) =~= all);
        assert forall|i: int|
            0 <= i < all.len() && all[i] is Process && all[i]->Process_result.0 < 0 && (forall|j: int|
                0 <= j < i ==> !(all[j] is Process && all[j]->Process_result.0 < 0)) implies first_failed_process(all)
            == Some(all[i]->Process_result) by {
            lemma_first_failed_process_at(all, i);
        }
        if forall|j: int| 0 <= j < all.len() ==> !(all[j] is Process && all[j]->Process_result.0 < 0) {
            lemma_no_failed_process(all);
        }
        assert forall|i: int|
            0 <= i < all.len() && all[i] is Process && (forall|j: int|
                i < j < all.len() ==> !(all[j] is Process)) implies latest_process(all) == Some(
            all[i]->Process_image,
        ) by {
            lemma_latest_process_at(all, i);
        }
        if forall|j: int| 0 <= j < all.len() ==> !(all[j] is Process) {
            lemma_latest_process_at(all, -1);
        }
    }
    match failed {
        Some(code) => {
            proof {
                reveal_strlit("process failed (");
            }
            Err(failure("process failed (", code))
        },
        None => match latest {
            Some(Some(image)) => Ok(image),
            _ => Err(BrawError::new("on_process_complete delivered no image")),
        },
    }
}

} // verus!
