//! The producers' side of the render loop: a channel for signals and a shared queue
//! of render actions, and a context for checking what producers sent.
use std::sync::mpsc::{Receiver, Sender};
use std::sync::{Arc, Mutex};

use vstd::prelude::*;
use vstd::string::*;

use crate::testutil::{action_to_string, render_action_to_string, report_line, spec_action_name, spec_render_action_name};
use crate::view::{RenderAction, ViewAction};

verus! {

#[verifier::external_type_specification]
#[verifier::external_body]
#[verifier::reject_recursive_types(T)]
pub struct ExSender<T>(Sender<T>);

#[verifier::external_type_specification]
#[verifier::external_body]
#[verifier::reject_recursive_types(T)]
pub struct ExReceiver<T>(Receiver<T>);

#[verifier::external_type_specification]
#[verifier::external_body]
#[verifier::reject_recursive_types(T)]
pub struct ExMutex<T: ?Sized>(Mutex<T>);

/// Relies on `std::sync::mpsc::channel`: a new channel's two ends.
#[verifier::external_body]
fn new_channel() -> (r: (Sender<ViewAction>, Receiver<ViewAction>)) {
    std::sync::mpsc::channel()
}

/// Relies on `Sender::send`: whether the signal was handed to a receiver that still
/// exists.
#[verifier::external_body]
fn send_on(sender: &Sender<ViewAction>, action: ViewAction) -> (r: bool) {
    sender.send(action).is_ok()
}

/// Relies on `Sender::clone`: another sender on the same channel.
#[verifier::external_body]
fn clone_sender(sender: &Sender<ViewAction>) -> (r: Sender<ViewAction>) {
    sender.clone()
}

/// Relies on `Receiver::recv_timeout`: the next signal, where one comes within the
/// given number of microseconds.
#[verifier::external_body]
fn receive_within(receiver: &Receiver<ViewAction>, micros: u64) -> (r: Option<ViewAction>) {
    receiver.recv_timeout(std::time::Duration::from_micros(micros)).ok()
}

/// Relies on `Mutex::new`: a lock around an empty queue.
#[verifier::external_body]
fn new_queue() -> (r: Mutex<Vec<RenderAction>>) {
    Mutex::new(Vec::new())
}

/// Relies on `Mutex::lock`: appends to the queue while holding its lock. A poisoned
/// lock is left as it is.
#[verifier::external_body]
fn push_queued(queue: &Mutex<Vec<RenderAction>>, action: RenderAction) {
    if let Ok(mut q) = queue.lock() {
        q.push(action);
    }
}

/// Relies on `Mutex::lock`: a copy of the queue, taken while holding its lock.
#[verifier::external_body]
fn copy_queued(queue: &Mutex<Vec<RenderAction>>) -> (r: Vec<RenderAction>) {
    match queue.lock() {
        Ok(q) => q.clone(),
        Err(_) => Vec::new(),
    }
}

/// Relies on `Mutex::lock`: empties the queue while holding its lock, and hands back
/// what it held.
#[verifier::external_body]
fn take_queued(queue: &Mutex<Vec<RenderAction>>) -> (r: Vec<RenderAction>) {
    match queue.lock() {
        Ok(mut q) => std::mem::take(&mut *q),
        Err(_) => Vec::new(),
    }
}

/// Why a signal was not sent.
#[derive(Debug, Clone, Copy, PartialEq, Eq, Structural)]
pub enum ViewSenderError {
    /// The receiving end is gone: the render loop has stopped.
    Disconnected,
}

/// A handle for producers: signals go over the channel, render actions into a queue
/// that every clone shares.
pub struct ViewSender {
    sender: Sender<ViewAction>,
    queue: Arc<Mutex<Vec<RenderAction>>>,
}

impl ViewSender {
    /// A handle on a channel, with an empty queue.
    pub fn new(sender: Sender<ViewAction>) -> (r: ViewSender) {
        ViewSender { sender, queue: Arc::new(new_queue()) }
    }

    /// Sends a signal to the render loop; fails where its receiving end is gone.
    pub fn send(&self, action: ViewAction) -> (r: Result<(), ViewSenderError>)
        ensures
            r is Err ==> r == Err::<(), ViewSenderError>(ViewSenderError::Disconnected),
    {
        if send_on(&self.sender, action) {
            Ok(())
        } else {
            Err(ViewSenderError::Disconnected)
        }
    }

    /// Queues a render action for the next Render, after every action queued before
    /// it through any clone.
    pub fn queue_scroll(&self, action: RenderAction) {
        push_queued(&self.queue, action);
    }

    /// A copy of the actions queued.
    pub fn clone_render_actions(&self) -> (r: Vec<RenderAction>) {
        copy_queued(&self.queue)
    }

    /// Empties the queue and hands back its actions, first to last.
    pub fn take_render_actions(&self) -> (r: Vec<RenderAction>) {
        take_queued(&self.queue)
    }

    /// Another handle on the same channel and queue.
    pub fn clone(&self) -> (r: ViewSender) {
        ViewSender { sender: clone_sender(&self.sender), queue: self.queue.clone() }
    }
}

/// Every queued action has the name expected at its place, and there are as many of
/// each.
/// The texts of some strings.
pub open spec fn string_texts(s: Seq<String>) -> Seq<Seq<char>> {
    s.map_values(|t: String| t@)
}

/// The texts of some string slices.
pub open spec fn str_texts(s: Seq<&str>) -> Seq<Seq<char>> {
    s.map_values(|t: &str| t@)
}

pub open spec fn actions_match(actions: Seq<RenderAction>, names: Seq<Seq<char>>) -> bool {
    &&& actions.len() == names.len()
    &&& forall|i: int| 0 <= i < actions.len() ==> names[i] == #[trigger] spec_render_action_name(actions[i])
}

/// Compares actions with the names expected. Where they differ, the error holds a
/// report: expected names marked `-`, actual ones marked `+`, agreeing ones marked
/// with a space.
pub fn compare_actions(actions: &Vec<RenderAction>, expected: &[String]) -> (r: Result<(), String>)
    ensures
        r is Ok <==> actions_match(actions@, string_texts(expected@)),
{
    let mut mismatch = false;
    let mut report = String::from_str("Unexpected actions!\n--- Expected\n+++ Actual\n==========");
    let common: usize = if actions.len() < expected.len() {
        actions.len()
    } else {
        expected.len()
    };
    let mut i: usize = 0;
    while i < common
        invariant
            i <= common,
            common <= actions@.len(),
            common <= expected@.len(),
            !mismatch <==> forall|j: int|
                0 <= j < i ==> expected@[j]@ == #[trigger] spec_render_action_name(actions@[j]),
        decreases common - i,
    {
        let name = render_action_to_string(actions[i]);
        let same = expected[i] == name;
        assert(expected@.map_values(|s: String| s@)[i as int] == expected@[i as int]@);
        if same {
            report_line(&mut report, " ", name.as_str());
        } else {
            mismatch = true;
            report_line(&mut report, "-", expected[i].as_str());
            report_line(&mut report, "+", name.as_str());
        }
        i = i + 1;
    }
    let mut j: usize = common;
    while j < expected.len()
        invariant
            common <= j <= expected@.len(),
        decreases expected@.len() - j,
    {
        report_line(&mut report, "-", expected[j].as_str());
        j = j + 1;
    }
    let mut k: usize = common;
    while k < actions.len()
        invariant
            common <= k <= actions@.len(),
        decreases actions@.len() - k,
    {
        let name = render_action_to_string(actions[k]);
        report_line(&mut report, "+", name.as_str());
        k = k + 1;
    }
    proof {
        let names = expected@.map_values(|s: String| s@);
        if !mismatch && actions@.len() == expected@.len() {
            assert forall|i: int| 0 <= i < actions@.len() implies names[i]
                == #[trigger] spec_render_action_name(actions@[i]) by {
                assert(names[i] == expected@[i]@);
            }
        }
        if actions_match(actions@, names) {
            assert forall|j: int| 0 <= j < common implies expected@[j]@
                == #[trigger] spec_render_action_name(actions@[j]) by {
                assert(names[j] == expected@[j]@);
            }
        }
    }
    if mismatch || actions.len() != expected.len() {
        report.append("\n==========\n");
        Err(report)
    } else {
        Ok(())
    }
}

/// Compares the actions queued on a sender with the names expected; see
/// `compare_actions`.
fn assert_view_sender_actions(view_sender: &ViewSender, expected_actions: &[String]) -> (r: Result<(), String>)
    ensures
        exists|queued: Seq<RenderAction>|
            (r is Ok <==> #[trigger] actions_match(queued, string_texts(expected_actions@))),
{
    let actions = view_sender.clone_render_actions();
    let r = compare_actions(&actions, expected_actions);
    assert(r is Ok <==> actions_match(actions@, expected_actions@.map_values(|s: String| s@)));
    r
}

/// A signal arrived for every name expected, each with the name expected at its
/// place, and no signal came after.
pub open spec fn messages_match(
    expected: Seq<&str>,
    received: Seq<Option<ViewAction>>,
    extra: Seq<ViewAction>,
) -> bool {
    &&& extra.len() == 0
    &&& forall|i: int| 0 <= i < expected.len() ==> message_arrived(expected, received, i)
}

/// The signal at place `i` arrived and has the name expected there.
pub open spec fn message_arrived(expected: Seq<&str>, received: Seq<Option<ViewAction>>, i: int) -> bool {
    &&& i < received.len()
    &&& received[i] is Some
    &&& spec_action_name(received[i]->Some_0) == expected[i]@
}

/// Compares the signals received, one per expected name (`None` where none came),
/// and those that came after, with the names expected. Where they differ, the error
/// holds a report.
pub fn compare_messages(
    expected: &Vec<&str>,
    received: &Vec<Option<ViewAction>>,
    extra: &Vec<ViewAction>,
) -> (r: Result<(), String>)
    ensures
        r is Ok <==> messages_match(expected@, received@, extra@),
{
    let mut mismatch = false;
    let mut report = String::from_str("Unexpected messages!\n--- Expected\n+++ Actual\n==========");
    let mut i: usize = 0;
    while i < expected.len()
        invariant
            i <= expected@.len(),
            !mismatch <==> forall|j: int| 0 <= j < i ==> #[trigger] message_arrived(expected@, received@, j),
        decreases expected@.len() - i,
    {
        let message = expected[i];
        let arrived: bool = if i < received.len() {
            match received[i] {
                Some(action) => {
                    let name = action_to_string(action);
                    let same = name == String::from_str(message);
                    if same {
                        report_line(&mut report, " ", message);
                    } else {
                        report_line(&mut report, "-", message);
                        report_line(&mut report, "+", name.as_str());
                    }
                    same
                },
                None => {
                    report_line(&mut report, "-", message);
                    false
                },
            }
        } else {
            report_line(&mut report, "-", message);
            false
        };
        assert(arrived == message_arrived(expected@, received@, i as int));
        if !arrived {
            mismatch = true;
        }
        assert(!mismatch <==> forall|j: int| 0 <= j < i + 1 ==> #[trigger] message_arrived(expected@, received@, j)) by {
            if !mismatch {
                assert forall|j: int| 0 <= j < i + 1 implies #[trigger] message_arrived(expected@, received@, j) by {
                    if j < i {
                        assert(message_arrived(expected@, received@, j));
                    }
                }
            }
        }
        i = i + 1;
    }
    let mut k: usize = 0;
    while k < extra.len()
        invariant
            k <= extra@.len(),
        decreases extra@.len() - k,
    {
        let name = action_to_string(extra[k]);
        report_line(&mut report, "+", name.as_str());
        k = k + 1;
    }
    if mismatch || extra.len() > 0 {
        report.append("\n==========\n");
        Err(report)
    } else {
        Ok(())
    }
}

/// The most signals that are drained after the expected ones.
pub const MAX_EXTRA_MESSAGES: usize = 64;

/// A sender and the receiving end of its channel, for checking what producers sent.
pub struct TestContext {
    pub sender: ViewSender,
    pub receiver: Receiver<ViewAction>,
}

impl TestContext {
    /// Replaces the receiving end with that of another channel and drops it, so that
    /// later sends find their receiver gone.
    pub fn drop_receiver(&mut self)
        ensures
            final(self).sender == old(self).sender,
    {
        let (_, receiver) = new_channel();
        self.receiver = receiver;
    }

    /// Compares the queued render actions with the names given; see `compare_actions`.
    pub fn assert_render_action(&self, actions: &[&str]) -> (r: Result<(), String>)
        ensures
            exists|queued: Seq<RenderAction>|
                (r is Ok <==> #[trigger] actions_match(queued, str_texts(actions@))),
    {
        let mut expected: Vec<String> = Vec::new();
        let mut i: usize = 0;
        while i < actions.len()
            invariant
                i <= actions@.len(),
                string_texts(expected@) == str_texts(actions@.subrange(0, i as int)),
            decreases actions@.len() - i,
        {
            let ghost prev = expected@;
            let text = String::from_str(actions[i]);
            expected.push(text);
            proof {
                assert(string_texts(expected@) =~= string_texts(prev).push(actions@[i as int]@));
                assert(str_texts(actions@.subrange(0, i + 1)) =~= str_texts(actions@.subrange(0, i as int)).push(
                    actions@[i as int]@,
                ));
            }
            i = i + 1;
        }
        assert(actions@.subrange(0, i as int) =~= actions@);
        let names = expected.as_slice();
        assert(names@ == expected@);
        assert_view_sender_actions(&self.sender, names)
    }

    /// Receives one signal per name given, waiting up to a second for each, then
    /// drains what else arrives at once (up to `MAX_EXTRA_MESSAGES`), and compares;
    /// see `compare_messages`.
    pub fn assert_sent_messages(&self, messages: Vec<&str>) -> (r: Result<(), String>)
        ensures
            exists|received: Seq<Option<ViewAction>>, extra: Seq<ViewAction>|
                received.len() == messages@.len() && extra.len() <= MAX_EXTRA_MESSAGES && (r is Ok
                    <==> #[trigger] messages_match(messages@, received, extra)),
    {
        let mut received: Vec<Option<ViewAction>> = Vec::new();
        let mut i: usize = 0;
        while i < messages.len()
            invariant
                i <= messages@.len(),
                received@.len() == i,
            decreases messages@.len() - i,
        {
            received.push(receive_within(&self.receiver, 1_000_000));
            i = i + 1;
        }
        let mut extra: Vec<ViewAction> = Vec::new();
        let mut n: usize = 0;
        while n < MAX_EXTRA_MESSAGES
            invariant
                n <= MAX_EXTRA_MESSAGES,
                extra@.len() == n,
            decreases MAX_EXTRA_MESSAGES - n,
        {
            match receive_within(&self.receiver, 10) {
                Some(action) => {
                    extra.push(action);
                },
                None => {
                    break;
                },
            }
            n = n + 1;
        }
        let r = compare_messages(&messages, &received, &extra);
        assert(r is Ok <==> messages_match(messages@, received@, extra@));
        r
    }
}

/// Hands a fresh sender and the receiving end of its channel to a callback.
pub fn with_view_sender<C: FnOnce(TestContext)>(callback: C)
    requires
        forall|context: TestContext| callback.requires((context,)),
    ensures
        exists|context: TestContext| call_ensures(callback, (context,), ()),
{
    let (sender, receiver) = new_channel();
    let view_sender = ViewSender::new(sender);
    let context = TestContext { sender: view_sender, receiver };
    let ghost given = context;
    let done = callback(context);
    assert(call_ensures(callback, (given,), done));
}

} // verus!
