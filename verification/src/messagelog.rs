//! The narration log: lines of text, each on a named channel.

use vstd::prelude::*;
use vstd::string::*;

verus! {

/// One line of narration.
#[derive(Debug, PartialEq, Eq)]
pub struct Message {
    pub timestamp: i32,
    pub priority: i32,
    pub channel: String,
    pub text: String,
}

/// What a line of narration says, as mathematical values.
pub struct MessageView {
    pub timestamp: int,
    pub priority: int,
    pub channel: Seq<char>,
    pub text: Seq<char>,
}

impl View for Message {
    type V = MessageView;

    open spec fn view(&self) -> MessageView {
        MessageView {
            timestamp: self.timestamp as int,
            priority: self.priority as int,
            channel: self.channel@,
            text: self.text@,
        }
    }
}

impl Clone for Message {
    fn clone(&self) -> (m: Message)
        ensures
            m@ == self@,
    {
        Message {
            timestamp: self.timestamp,
            priority: self.priority,
            channel: self.channel.clone(),
            text: self.text.clone(),
        }
    }
}

/// The narration log, oldest line first.
#[derive(Debug)]
pub struct MessageLog {
    pub logs: Vec<Message>,
}

/// The line that `tell_player` writes for a text.
pub open spec fn world_line(text: Seq<char>) -> MessageView {
    MessageView { timestamp: 0, priority: 0, channel: "world"@, text }
}

/// The line that `tell_planq` writes for a text.
pub open spec fn planq_line(text: Seq<char>) -> MessageView {
    MessageView { timestamp: 0, priority: 0, channel: "planq"@, text }
}

/// The index of the newest of the first `n` lines of `log` that is on
/// `channel`, or -1 if none of them is.
pub open spec fn last_on_channel(log: Seq<MessageView>, n: int, channel: Seq<char>) -> int
    decreases n,
{
    if n <= 0 {
        -1
    } else if log[n - 1].channel == channel {
        n - 1
    } else {
        last_on_channel(log, n - 1, channel)
    }
}

/// The log after replacing the newest line of the new line's channel by the
/// new line, or after appending the new line if its channel has no line yet.
pub open spec fn spec_replace(log: Seq<MessageView>, line: MessageView) -> Seq<MessageView> {
    let at = last_on_channel(log, log.len() as int, line.channel);
    if at < 0 {
        log.push(line)
    } else {
        log.update(at, line)
    }
}

/// The lines among the first `n` of `log` that are on `channel`, in order.
pub open spec fn channel_lines(log: Seq<MessageView>, n: int, channel: Seq<char>) -> Seq<
    MessageView,
>
    decreases n,
{
    if n <= 0 {
        Seq::empty()
    } else if log[n - 1].channel == channel {
        channel_lines(log, n - 1, channel).push(log[n - 1])
    } else {
        channel_lines(log, n - 1, channel)
    }
}

/// The last `count` elements of `lines`, or all of them if `count` is 0 or
/// there are no more than `count`.
pub open spec fn newest(lines: Seq<MessageView>, count: int) -> Seq<MessageView> {
    if count <= 0 || lines.len() <= count {
        lines
    } else {
        lines.subrange(lines.len() - count, lines.len() as int)
    }
}

/// The text with which the device narrates a boot stage; empty for a stage
/// that does not exist.
pub open spec fn spec_boot_text(stage: u32) -> Seq<char> {
    if stage == 0 {
        "[[ PLANQ OS v17.6.823 ]] Power-on self test"@
    } else if stage == 1 {
        "Hardware check: 1 cell, 1 display, 1 jack ... OK"@
    } else if stage == 2 {
        "Loading firmware modules ..."@
    } else if stage == 3 {
        "Mounting storage, starting services ..."@
    } else if stage == 4 {
        "Boot complete. Welcome back."@
    } else {
        Seq::empty()
    }
}

impl View for MessageLog {
    type V = Seq<MessageView>;

    open spec fn view(&self) -> Seq<MessageView> {
        self.logs@.map_values(|m: Message| m@)
    }
}

impl MessageLog {
    /// An empty log.
    pub fn new() -> (log: MessageLog)
        ensures
            log@ == Seq::<MessageView>::empty(),
    {
        let log = MessageLog { logs: Vec::new() };
        log
    }

    /// The number of lines in the log.
    pub fn len(&self) -> (n: usize)
        ensures
            n == self@.len(),
    {
        self.logs.len()
    }

    /// Appends a line.
    pub fn add(&mut self, msg_text: String, msg_chan: String, msg_prio: i32, msg_time: i32)
        ensures
            final(self)@ == old(self)@.push(
                MessageView {
                    timestamp: msg_time as int,
                    priority: msg_prio as int,
                    channel: msg_chan@,
                    text: msg_text@,
                },
            ),
    {
        let message = Message {
            timestamp: msg_time,
            priority: msg_prio,
            channel: msg_chan,
            text: msg_text,
        };
        self.logs.push(message);
    }

    /// Appends a line for the player, on the channel `world`.
    pub fn tell_player(&mut self, msg_text: String)
        ensures
            final(self)@ == old(self)@.push(world_line(msg_text@)),
    {
        self.add(msg_text, String::from_str("world"), 0, 0);
    }

    /// Appends a line to the device's transcript, the channel `planq`.
    pub fn tell_planq(&mut self, msg_text: String)
        ensures
            final(self)@ == old(self)@.push(planq_line(msg_text@)),
    {
        self.add(msg_text, String::from_str("planq"), 0, 0);
    }

    /// Replaces the newest line of a channel, or appends the line if the
    /// channel has none yet.
    pub fn replace(&mut self, msg_text: String, msg_chan: String, msg_prio: i32, msg_time: i32)
        ensures
            final(self)@ == spec_replace(
                old(self)@,
                MessageView {
                    timestamp: msg_time as int,
                    priority: msg_prio as int,
                    channel: msg_chan@,
                    text: msg_text@,
                },
            ),
    {
        let ghost line = MessageView {
            timestamp: msg_time as int,
            priority: msg_prio as int,
            channel: msg_chan@,
            text: msg_text@,
        };
        let mut i: usize = self.logs.len();
        while i > 0
            invariant
                i <= self.logs.len(),
                *self == *old(self),
                line == (MessageView {
                    timestamp: msg_time as int,
                    priority: msg_prio as int,
                    channel: msg_chan@,
                    text: msg_text@,
                }),
                last_on_channel(self@, self@.len() as int, msg_chan@) == last_on_channel(
                    self@,
                    i as int,
                    msg_chan@,
                ),
            decreases i,
        {
            if self.logs[i - 1].channel == msg_chan {
                let message = Message {
                    timestamp: msg_time,
                    priority: msg_prio,
                    channel: msg_chan,
                    text: msg_text,
                };
                self.logs.set(i - 1, message);
                return;
            }
            i -= 1;
        }
        self.add(msg_text, msg_chan, msg_prio, msg_time);
    }

    /// Narrates a boot stage on the device's transcript.
    pub fn boot_message(&mut self, boot_stage: u32)
        ensures
            final(self)@ == old(self)@.push(planq_line(spec_boot_text(boot_stage))),
    {
        let text = if boot_stage == 0 {
            "[[ PLANQ OS v17.6.823 ]] Power-on self test"
        } else if boot_stage == 1 {
            "Hardware check: 1 cell, 1 display, 1 jack ... OK"
        } else if boot_stage == 2 {
            "Loading firmware modules ..."
        } else if boot_stage == 3 {
            "Mounting storage, starting services ..."
        } else if boot_stage == 4 {
            "Boot complete. Welcome back."
        } else {
            ""
        };
        proof {
            reveal_strlit("");
            assert(""@ =~= Seq::<char>::empty());
        }
        self.tell_planq(String::from_str(text));
    }

    /// The lines of a channel, oldest first: the newest `count` of them, or
    /// all of them if `count` is 0.
    pub fn get_log_as_messages(&self, channel: String, count: usize) -> (lines: Vec<Message>)
        ensures
            lines@.map_values(|m: Message| m@) == newest(
                channel_lines(self@, self@.len() as int, channel@),
                count as int,
            ),
    {
        let mut all: Vec<Message> = Vec::new();
        let mut i: usize = 0;
        while i < self.logs.len()
            invariant
                i <= self.logs.len(),
                all@.map_values(|m: Message| m@) == channel_lines(self@, i as int, channel@),
            decreases self.logs.len() - i,
        {
            if self.logs[i].channel == channel {
                let copy = self.logs[i].clone();
                all.push(copy);
            }
            i += 1;
        }
        if count == 0 || all.len() <= count {
            return all;
        }
        let skip: usize = all.len() - count;
        let lines = all.split_off(skip);
        lines
    }
}

} // verus!
