//! The command line of the device: from a line of input to a command.

use vstd::prelude::*;
use vstd::string::*;

verus! {

/// A command for the device.
#[derive(Debug, PartialEq, Eq)]
pub enum PlanqCmd {
    Help,
    Shutdown,
    Reboot,
    Connect(String),
    Disconnect,
    Error(String),
}

/// A command for the device, as mathematical values.
pub enum PlanqCmdView {
    Help,
    Shutdown,
    Reboot,
    Connect(Seq<char>),
    Disconnect,
    Error(Seq<char>),
}

impl View for PlanqCmd {
    type V = PlanqCmdView;

    open spec fn view(&self) -> PlanqCmdView {
        match self {
            PlanqCmd::Help => PlanqCmdView::Help,
            PlanqCmd::Shutdown => PlanqCmdView::Shutdown,
            PlanqCmd::Reboot => PlanqCmdView::Reboot,
            PlanqCmd::Connect(target) => PlanqCmdView::Connect(target@),
            PlanqCmd::Disconnect => PlanqCmdView::Disconnect,
            PlanqCmd::Error(text) => PlanqCmdView::Error(text@),
        }
    }
}

/// Whether the character is one of the two prompt signs, `>` and the
/// pilcrow, that may stand around a command.
pub open spec fn is_prompt(c: char) -> bool {
    c == '>' || c == '\u{b6}'
}

/// Whether the character is white space.
pub open spec fn is_space(c: char) -> bool {
    let n = c as u32;
    ||| 0x09 <= n <= 0x0d
    ||| n == 0x20
    ||| n == 0x85
    ||| n == 0xa0
    ||| n == 0x1680
    ||| 0x2000 <= n <= 0x200a
    ||| n == 0x2028
    ||| n == 0x2029
    ||| n == 0x202f
    ||| n == 0x205f
    ||| n == 0x3000
}

/// The first index from `from` on, below `to`, at which no prompt sign
/// stands; `to` if there is none.
pub open spec fn after_prompts(s: Seq<char>, from: int, to: int) -> int
    decreases to - from,
{
    if from < to && is_prompt(s[from]) {
        after_prompts(s, from + 1, to)
    } else {
        from
    }
}

/// The end of the part of `s` from `from` to `to` that is left when the
/// prompt signs at its end are taken off.
pub open spec fn before_prompts(s: Seq<char>, from: int, to: int) -> int
    decreases to - from,
{
    if from < to && is_prompt(s[to - 1]) {
        before_prompts(s, from, to - 1)
    } else {
        to
    }
}

/// The first index from `from` on, below `to`, at which no white space
/// stands; `to` if there is none.
pub open spec fn after_spaces(s: Seq<char>, from: int, to: int) -> int
    decreases to - from,
{
    if from < to && is_space(s[from]) {
        after_spaces(s, from + 1, to)
    } else {
        from
    }
}

/// The first index from `from` on, below `to`, at which a blank stands; `to`
/// if there is none.
pub open spec fn word_end(s: Seq<char>, from: int, to: int) -> int
    decreases to - from,
{
    if from < to && s[from] != ' ' {
        word_end(s, from + 1, to)
    } else {
        from
    }
}

/// The command that a line of input gives.
///
/// The prompt signs at both ends of the line and then the white space at its
/// start are taken off. What is left is cut into words at each single blank.
/// The first word is the command: `help`, `shutdown`, `reboot` and
/// `disconnect` stand alone, `connect` takes the second word as its target;
/// any other first word is an unknown command. `connect` without a second
/// word is an error too.
pub open spec fn spec_parse(input: Seq<char>) -> PlanqCmdView {
    let len = input.len() as int;
    let start = after_prompts(input, 0, len);
    let end = before_prompts(input, start, len);
    let first = after_spaces(input, start, end);
    let first_end = word_end(input, first, end);
    let word = input.subrange(first, first_end);
    if word == "help"@ {
        PlanqCmdView::Help
    } else if word == "shutdown"@ {
        PlanqCmdView::Shutdown
    } else if word == "reboot"@ {
        PlanqCmdView::Reboot
    } else if word == "connect"@ {
        if first_end < end {
            PlanqCmdView::Connect(
                input.subrange(first_end + 1, word_end(input, first_end + 1, end)),
            )
        } else {
            PlanqCmdView::Error("connect needs a target"@)
        }
    } else if word == "disconnect"@ {
        PlanqCmdView::Disconnect
    } else {
        PlanqCmdView::Error("Unknown command: "@ + word)
    }
}

fn is_prompt_char(c: char) -> (b: bool)
    ensures
        b == is_prompt(c),
{
    c == '>' || c == '\u{b6}'
}

fn is_space_char(c: char) -> (b: bool)
    ensures
        b == is_space(c),
{
    let n = c as u32;
    (0x09 <= n && n <= 0x0d) || n == 0x20 || n == 0x85 || n == 0xa0 || n == 0x1680 || (0x2000 <= n
        && n <= 0x200a) || n == 0x2028 || n == 0x2029 || n == 0x202f || n == 0x205f || n == 0x3000
}

fn scan_word(line: &str, from: usize, to: usize) -> (end: usize)
    requires
        from <= to <= line@.len(),
    ensures
        end == word_end(line@, from as int, to as int),
        from <= end <= to,
{
    let mut i = from;
    while i < to && line.get_char(i) != ' '
        invariant
            from <= i <= to <= line@.len(),
            word_end(line@, from as int, to as int) == word_end(line@, i as int, to as int),
        decreases to - i,
    {
        i += 1;
    }
    i
}

/// Reads a line of input as a command for the device.
pub fn planq_parser(input: String) -> (cmd: PlanqCmd)
    ensures
        cmd@ == spec_parse(input@),
{
    let line = input.as_str();
    let len = line.unicode_len();
    let mut start: usize = 0;
    while start < len && is_prompt_char(line.get_char(start))
        invariant
            start <= len == line@.len(),
            after_prompts(line@, 0, len as int) == after_prompts(line@, start as int, len as int),
        decreases len - start,
    {
        start += 1;
    }
    let mut end: usize = len;
    while start < end && is_prompt_char(line.get_char(end - 1))
        invariant
            start <= end <= len == line@.len(),
            before_prompts(line@, start as int, len as int) == before_prompts(
                line@,
                start as int,
                end as int,
            ),
        decreases end - start,
    {
        end -= 1;
    }
    let mut first: usize = start;
    while first < end && is_space_char(line.get_char(first))
        invariant
            start <= first <= end <= len == line@.len(),
            after_spaces(line@, start as int, end as int) == after_spaces(
                line@,
                first as int,
                end as int,
            ),
        decreases end - first,
    {
        first += 1;
    }
    let first_end = scan_word(line, first, end);
    let word = line.substring_char(first, first_end).to_owned();
    if word == String::from_str("help") {
        PlanqCmd::Help
    } else if word == String::from_str("shutdown") {
        PlanqCmd::Shutdown
    } else if word == String::from_str("reboot") {
        PlanqCmd::Reboot
    } else if word == String::from_str("connect") {
        if first_end < end {
            let target_end = scan_word(line, first_end + 1, end);
            PlanqCmd::Connect(line.substring_char(first_end + 1, target_end).to_owned())
        } else {
            PlanqCmd::Error(String::from_str("connect needs a target"))
        }
    } else if word == String::from_str("disconnect") {
        PlanqCmd::Disconnect
    } else {
        let mut text = String::from_str("Unknown command: ");
        text.append(word.as_str());
        PlanqCmd::Error(text)
    }
}

} // verus!
