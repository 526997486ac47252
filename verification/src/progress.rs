//! Following the progress messages of a transfer: the terminal progress
//! bar and the progress shown by the transfer dialog.

use vstd::prelude::*;

verus! {

/// A progress message sent by the transfer protocol.
#[derive(Debug, Clone, Copy, PartialEq, Eq, Structural)]
pub enum ChannelMessage {
    /// The folder has too many files and is compressed first.
    Compression,
    /// The number of bytes to transfer.
    ProgressSize(usize),
    /// This many more bytes were transferred.
    Progress(usize),
    /// The received archive is being uncompressed.
    Uncompressing,
    /// The transfer is over.
    Finished,
}

/// What the terminal does in answer to a progress message.
#[derive(Debug, Clone, Copy, PartialEq, Eq, Structural)]
pub enum BarAction {
    /// Tell the user the folder is compressed before the transfer.
    AnnounceCompression,
    /// Show a new progress bar with this length.
    Start(u64),
    /// Move the bar forward by this much.
    Advance(u64),
    /// Tell the user the received archive is uncompressed.
    AnnounceUncompressing,
    /// Complete the bar and drop it.
    Finish,
    /// Nothing to do.
    Nothing,
}

/// How the terminal answers one progress message, given whether a bar is
/// shown: whether a bar is shown afterwards, and what it does. The bar
/// moves only while one is shown, and it is finished at most once.
pub open spec fn bar_step(shown: bool, message: ChannelMessage) -> (bool, BarAction) {
    match message {
        ChannelMessage::Compression => (shown, BarAction::AnnounceCompression),
        ChannelMessage::ProgressSize(total) => (true, BarAction::Start(total as u64)),
        ChannelMessage::Progress(n) => (shown, if shown {
            BarAction::Advance(n as u64)
        } else {
            BarAction::Nothing
        }),
        ChannelMessage::Uncompressing => (shown, BarAction::AnnounceUncompressing),
        ChannelMessage::Finished => (false, if shown {
            BarAction::Finish
        } else {
            BarAction::Nothing
        }),
    }
}

/// Answering the messages `msgs` in turn, starting with a bar shown when
/// `shown`: whether a bar is shown at the end, and the actions taken.
pub open spec fn bar_run(shown: bool, msgs: Seq<ChannelMessage>) -> (bool, Seq<BarAction>)
    decreases msgs.len(),
{
    if msgs.len() == 0 {
        (shown, Seq::empty())
    } else {
        let before = bar_run(shown, msgs.drop_last());
        let last = bar_step(before.0, msgs.last());
        (last.0, before.1.push(last.1))
    }
}

/// A bar is shown after `msgs` when some size message came after the last
/// "finished", or when one was shown before and no "finished" came.
pub open spec fn bar_open_after(shown: bool, msgs: Seq<ChannelMessage>) -> bool {
    ||| exists|j: int|
        0 <= j < msgs.len() && (#[trigger] msgs[j]) is ProgressSize && forall|k: int|
            j < k < msgs.len() ==> !(#[trigger] msgs[k] is Finished)
    ||| shown && forall|k: int| 0 <= k < msgs.len() ==> !(#[trigger] msgs[k] is Finished)
}

/// The progress bar of the terminal client: whether one is shown.
pub struct TerminalProgress {
    bar: bool,
}

impl TerminalProgress {
    /// Whether a progress bar is shown.
    pub closed spec fn has_bar(&self) -> bool {
        self.bar
    }

    /// No bar is shown before the first message.
    pub fn new() -> (r: Self)
        ensures
            !r.has_bar(),
    {
        TerminalProgress { bar: false }
    }

    /// Answers one progress message, as [`bar_step`] says; any message is
    /// accepted in any state.
    pub fn step(&mut self, message: ChannelMessage) -> (r: BarAction)
        ensures
            (final(self).has_bar(), r) == bar_step(old(self).has_bar(), message),
    {
        match message {
            ChannelMessage::Compression => BarAction::AnnounceCompression,
            ChannelMessage::ProgressSize(total) => {
                self.bar = true;
                BarAction::Start(total as u64)
            },
            ChannelMessage::Progress(n) => if self.bar {
                BarAction::Advance(n as u64)
            } else {
                BarAction::Nothing
            },
            ChannelMessage::Uncompressing => BarAction::AnnounceUncompressing,
            ChannelMessage::Finished => if self.bar {
                self.bar = false;
                BarAction::Finish
            } else {
                BarAction::Nothing
            },
        }
    }
}

/// Any sequence of progress messages, in any order, is answered one
/// action per message, each action being what [`bar_step`] gives in the
/// state the earlier messages left; and a bar is shown at the end exactly
/// when a size message came after the last "finished" (or a bar was shown
/// and no "finished" came).
pub proof fn law_progress_over_messages(shown: bool, msgs: Seq<ChannelMessage>)
    ensures
        bar_run(shown, msgs).1.len() == msgs.len(),
        forall|i: int|
            0 <= i < msgs.len() ==> #[trigger] bar_run(shown, msgs).1[i] == bar_step(
                bar_run(shown, msgs.take(i)).0,
                msgs[i],
            ).1,
        bar_run(shown, msgs).0 == bar_open_after(shown, msgs),
    decreases msgs.len(),
{
    if msgs.len() > 0 {
        let front = msgs.drop_last();
        law_progress_over_messages(shown, front);
        let n = msgs.len() - 1;
        assert forall|i: int| 0 <= i < msgs.len() implies #[trigger] bar_run(shown, msgs).1[i]
            == bar_step(bar_run(shown, msgs.take(i)).0, msgs[i]).1 by {
            if i < n {
                assert(msgs.take(i) =~= front.take(i));
                assert(front[i] == msgs[i]);
            } else {
                assert(msgs.take(i) =~= front);
            }
        }
        let last = msgs[n];
        if bar_run(shown, msgs).0 {
            if !(last is Finished) {
                if last is ProgressSize {
                    assert(bar_open_after(shown, msgs));
                } else {
                    assert(bar_open_after(shown, front));
                    if exists|j: int|
                        0 <= j < front.len() && (#[trigger] front[j]) is ProgressSize && forall|k: int|
                            j < k < front.len() ==> !(#[trigger] front[k] is Finished) {
                        let j = choose|j: int|
                            0 <= j < front.len() && (#[trigger] front[j]) is ProgressSize && forall|k: int|
                                j < k < front.len() ==> !(#[trigger] front[k] is Finished);
                        assert(msgs[j] is ProgressSize);
                        assert forall|k: int| j < k < msgs.len() implies !(#[trigger] msgs[k] is Finished) by {
                            if k < n {
                                assert(msgs[k] == front[k]);
                            }
                        }
                    } else {
                        assert forall|k: int| 0 <= k < msgs.len() implies !(#[trigger] msgs[k] is Finished) by {
                            if k < n {
                                assert(msgs[k] == front[k]);
                            }
                        }
                    }
                }
            }
        } else {
            if bar_open_after(shown, msgs) {
                if exists|j: int|
                    0 <= j < msgs.len() && (#[trigger] msgs[j]) is ProgressSize && forall|k: int|
                        j < k < msgs.len() ==> !(#[trigger] msgs[k] is Finished) {
                    let j = choose|j: int|
                        0 <= j < msgs.len() && (#[trigger] msgs[j]) is ProgressSize && forall|k: int|
                            j < k < msgs.len() ==> !(#[trigger] msgs[k] is Finished);
                    if j < n {
                        assert(!(msgs[n] is Finished));
                        assert(front[j] is ProgressSize);
                        assert forall|k: int| j < k < front.len() implies !(#[trigger] front[k] is Finished) by {
                            assert(msgs[k] == front[k]);
                        }
                        assert(bar_open_after(shown, front));
                    }
                } else {
                    assert(!(msgs[n] is Finished));
                    assert forall|k: int| 0 <= k < front.len() implies !(#[trigger] front[k] is Finished) by {
                        assert(msgs[k] == front[k]);
                    }
                    assert(bar_open_after(shown, front));
                }
            }
        }
    }
}

} // verus!
