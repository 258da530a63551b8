//! How the frames a daemon sends are read while the bridge waits for the
//! reply to a command, and while it follows the log for new messages.
use vstd::prelude::*;

verus! {

/// A frame received from the daemon, by kind. Only the text of an error
/// frame matters to the decisions made here.
#[derive(Debug, Clone, PartialEq, Eq)]
pub enum Frame {
    Hello,
    History,
    Shutdown,
    Ping,
    CommandOutput,
    Error(String),
    StreamStart,
    StreamChunk,
    StreamEnd,
    Phase,
    NewMessage,
    ToolCall,
    ToolResult,
    SendImage,
    CacheWarning,
    ProviderFallbackWarning,
    UsageWarning,
    /// A frame of a kind this bridge does not know; it is skipped.
    Unknown,
}

/// What to do with a frame while waiting for a command's reply.
#[derive(Debug, Clone, PartialEq, Eq)]
pub enum ReplyStep {
    /// This is the reply: hand its data to the caller.
    Deliver,
    /// The command failed with this message.
    Fail(String),
    /// An unrelated push frame: keep waiting.
    Wait,
    /// A streaming frame nobody asked for: note it and keep waiting.
    WaitAndWarn,
}

/// Frames that end the wait for a command's reply.
pub open spec fn ends_wait(frame: Frame) -> bool {
    frame is CommandOutput || frame is Error || frame is Shutdown
}

/// Streaming frames, legitimate only after a send or a regeneration.
pub open spec fn is_stream_frame(frame: Frame) -> bool {
    ||| frame is StreamStart
    ||| frame is StreamChunk
    ||| frame is StreamEnd
    ||| frame is ToolCall
    ||| frame is ToolResult
}

/// The message a command fails with when the daemon shuts down first.
pub open spec fn shutdown_message() -> Seq<char> {
    "daemon shut down before returning CommandOutput"@
}

/// Decides what a frame means for a command that awaits its reply.
pub fn reply_step(frame: Frame) -> (step: ReplyStep)
    ensures
        frame is CommandOutput <==> step is Deliver,
        frame matches Frame::Error(message) ==> step == ReplyStep::Fail(message),
        frame is Shutdown ==> (step matches ReplyStep::Fail(m) && m@ == shutdown_message()),
        !ends_wait(frame) && is_stream_frame(frame) ==> step is WaitAndWarn,
        !ends_wait(frame) && !is_stream_frame(frame) ==> step is Wait,
        (step is Deliver || step is Fail) <==> ends_wait(frame),
{
    match frame {
        Frame::CommandOutput => ReplyStep::Deliver,
        Frame::Error(message) => ReplyStep::Fail(message),
        Frame::Shutdown => ReplyStep::Fail(
            "daemon shut down before returning CommandOutput".to_owned(),
        ),
        Frame::Hello | Frame::History | Frame::Ping | Frame::NewMessage | Frame::SendImage
        | Frame::Phase | Frame::CacheWarning | Frame::ProviderFallbackWarning
        | Frame::UsageWarning | Frame::Unknown => ReplyStep::Wait,
        Frame::StreamStart | Frame::StreamChunk | Frame::StreamEnd | Frame::ToolCall
        | Frame::ToolResult => ReplyStep::WaitAndWarn,
    }
}

/// The frame that ends the wait for a reply in a stream of frames: the first
/// reply, error or shutdown, if any arrives.
pub open spec fn first_terminal(frames: Seq<Frame>) -> Option<Frame>
    decreases frames.len(),
{
    if frames.len() == 0 {
        None
    } else if ends_wait(frames[0]) {
        Some(frames[0])
    } else {
        first_terminal(frames.drop_first())
    }
}

/// The frames of a stream that end a wait, in order; all others are skipped.
pub open spec fn terminal_frames(frames: Seq<Frame>) -> Seq<Frame>
    decreases frames.len(),
{
    if frames.len() == 0 {
        Seq::empty()
    } else if ends_wait(frames[0]) {
        seq![frames[0]] + terminal_frames(frames.drop_first())
    } else {
        terminal_frames(frames.drop_first())
    }
}

proof fn lemma_first_terminal_heads_terminal_frames(frames: Seq<Frame>)
    ensures
        first_terminal(frames) == if terminal_frames(frames).len() > 0 {
            Some(terminal_frames(frames)[0])
        } else {
            None
        },
    decreases frames.len(),
{
    if frames.len() > 0 {
        lemma_first_terminal_heads_terminal_frames(frames.drop_first());
    }
}

/// Two reply streams that agree on their replies, errors and shutdowns end
/// the wait on the same frame, however many push or stream frames either
/// carries and wherever they stand.
pub proof fn skipped_frames_never_decide_the_reply(s1: Seq<Frame>, s2: Seq<Frame>)
    requires
        terminal_frames(s1) == terminal_frames(s2),
    ensures
        first_terminal(s1) == first_terminal(s2),
{
    lemma_first_terminal_heads_terminal_frames(s1);
    lemma_first_terminal_heads_terminal_frames(s2);
}

/// Inserting a frame that does not end the wait, anywhere in a reply stream,
/// leaves the frames that matter, and so the reply, unchanged.
pub proof fn inserting_a_skipped_frame_changes_nothing(frames: Seq<Frame>, i: int, extra: Frame)
    requires
        0 <= i <= frames.len(),
        !ends_wait(extra),
    ensures
        terminal_frames(frames.insert(i, extra)) == terminal_frames(frames),
        first_terminal(frames.insert(i, extra)) == first_terminal(frames),
    decreases i,
{
    let longer = frames.insert(i, extra);
    if i == 0 {
        assert(longer.drop_first() =~= frames);
    } else {
        assert(longer[0] == frames[0]);
        assert(longer.drop_first() =~= frames.drop_first().insert(i - 1, extra));
        inserting_a_skipped_frame_changes_nothing(frames.drop_first(), i - 1, extra);
    }
    skipped_frames_never_decide_the_reply(longer, frames);
}

/// The longest a log follow may run, in seconds.
pub const FOLLOW_MAX_SECS: u64 = 60;

/// How long a log follow runs: the requested time, capped at a minute.
pub fn follow_window_secs(requested: u64) -> (secs: u64)
    ensures
        secs == if requested < FOLLOW_MAX_SECS {
            requested
        } else {
            FOLLOW_MAX_SECS
        },
        secs <= FOLLOW_MAX_SECS,
{
    if requested < FOLLOW_MAX_SECS {
        requested
    } else {
        FOLLOW_MAX_SECS
    }
}

/// Bookkeeping of a bounded log follow: how many new messages were kept,
/// how many may be kept, and whether the stream has ended.
#[derive(Debug)]
pub struct FollowWindow {
    cap: u32,
    collected: u32,
    stopped: bool,
}

impl FollowWindow {
    #[verifier::type_invariant]
    spec fn never_over_cap(self) -> bool {
        self.collected <= self.cap
    }

    /// The most messages this follow keeps.
    pub closed spec fn cap(self) -> u32 {
        self.cap
    }

    /// The messages kept so far.
    pub closed spec fn collected(self) -> u32 {
        self.collected
    }

    /// Whether the daemon shut down or the wait timed out.
    pub closed spec fn stopped(self) -> bool {
        self.stopped
    }

    /// A follow that keeps at most `cap` messages and has kept none yet.
    pub fn new(cap: u32) -> (window: Self)
        ensures
            window.cap() == cap,
            window.collected() == 0,
            !window.stopped(),
    {
        FollowWindow { cap, collected: 0, stopped: false }
    }

    /// The messages kept so far.
    pub fn count(&self) -> (n: u32)
        ensures
            n == self.collected(),
            n <= self.cap(),
    {
        proof {
            use_type_invariant(&*self);
        }
        self.collected
    }

    /// Whether to wait for another frame: the deadline has not passed, the
    /// stream is still open and fewer than `cap` messages were kept.
    pub fn wants_more(&self, before_deadline: bool) -> (more: bool)
        ensures
            more == (before_deadline && !self.stopped() && self.collected() < self.cap()),
    {
        before_deadline && !self.stopped && self.collected < self.cap
    }

    /// Takes in one frame; returns whether it is a new message to keep. New
    /// messages are kept while the follow is open and below its cap, a
    /// shutdown ends the follow, anything else is skipped.
    pub fn observe(&mut self, frame: &Frame) -> (keep: bool)
        ensures
            keep == (*frame is NewMessage && !old(self).stopped() && old(self).collected() < old(
                self,
            ).cap()),
            final(self).cap() == old(self).cap(),
            final(self).collected() == old(self).collected() + if keep {
                1int
            } else {
                0int
            },
            final(self).stopped() == (old(self).stopped() || *frame is Shutdown),
            final(self).collected() <= final(self).cap(),
    {
        proof {
            use_type_invariant(&*self);
        }
        match frame {
            Frame::NewMessage => {
                if !self.stopped && self.collected < self.cap {
                    self.collected = self.collected + 1;
                    true
                } else {
                    false
                }
            },
            Frame::Shutdown => {
                self.stopped = true;
                false
            },
            _ => false,
        }
    }

    /// Records that no frame arrived before the deadline; the follow ends.
    pub fn time_out(&mut self)
        ensures
            final(self).stopped(),
            final(self).cap() == old(self).cap(),
            final(self).collected() == old(self).collected(),
    {
        proof {
            use_type_invariant(&*self);
        }
        self.stopped = true;
    }
}

} // verus!
