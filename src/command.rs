//! The commands of the interactive front end: an object, then an action,
//! then its arguments, as whitespace-separated words.

use vstd::prelude::*;

use crate::property::ObjectId;

verus! {

/// Actions on processes.
#[derive(Debug, Clone, Copy, PartialEq, Eq, Structural)]
pub enum ProcessCommand {
    Help,
    ListAll,
    Unsupported,
}

/// Actions on recordings.
#[derive(Debug, Clone, Copy, PartialEq, Eq, Structural)]
pub enum ReCommand {
    Help,
    /// Record the process with this object identifier.
    Start(ObjectId),
    /// `start` without a process identifier.
    MissingProcessId,
    /// `start` with a word that is not a process identifier.
    BadProcessId,
    Unsupported,
}

/// A command line, parsed.
#[derive(Debug, Clone, Copy, PartialEq, Eq, Structural)]
pub enum Command {
    Help,
    Quit,
    Process(ProcessCommand),
    Re(ReCommand),
    Unsupported,
}

pub open spec fn is_digit(c: char) -> bool {
    '0' <= c && c <= '9'
}

/// The number a run of decimal digits denotes.
pub open spec fn digits_value(s: Seq<char>) -> int
    decreases s.len(),
{
    if s.len() == 0 {
        0
    } else {
        digits_value(s.drop_last()) * 10 + (s.last() as int - '0' as int)
    }
}

/// A non-empty run of decimal digits whose value fits 32 bits, as that
/// value.
pub open spec fn digits_id(s: Seq<char>) -> Option<ObjectId> {
    if s.len() > 0 && (forall|i: int| 0 <= i < s.len() ==> is_digit(#[trigger] s[i]))
        && digits_value(s) <= u32::MAX {
        Some(digits_value(s) as ObjectId)
    } else {
        None
    }
}

/// A process identifier written in decimal, optionally after a `+` sign.
pub open spec fn process_id_of(s: Seq<char>) -> Option<ObjectId> {
    if s.len() > 0 && s[0] == '+' {
        digits_id(s.drop_first())
    } else {
        digits_id(s)
    }
}

pub open spec fn process_command_of(words: Seq<Seq<char>>) -> ProcessCommand {
    if words.len() == 0 {
        ProcessCommand::Unsupported
    } else if words[0] == "help"@ {
        ProcessCommand::Help
    } else if words[0] == "listall"@ {
        ProcessCommand::ListAll
    } else {
        ProcessCommand::Unsupported
    }
}

pub open spec fn re_command_of(words: Seq<Seq<char>>) -> ReCommand {
    if words.len() == 0 {
        ReCommand::Unsupported
    } else if words[0] == "help"@ {
        ReCommand::Help
    } else if words[0] == "start"@ {
        if words.len() < 2 {
            ReCommand::MissingProcessId
        } else {
            match process_id_of(words[1]) {
                Some(id) => ReCommand::Start(id),
                None => ReCommand::BadProcessId,
            }
        }
    } else {
        ReCommand::Unsupported
    }
}

/// The command the words of a line form.
pub open spec fn command_of(words: Seq<Seq<char>>) -> Command {
    if words.len() == 0 {
        Command::Unsupported
    } else if words[0] == "help"@ {
        Command::Help
    } else if words[0] == "quit"@ {
        Command::Quit
    } else if words[0] == "process"@ {
        Command::Process(process_command_of(words.drop_first()))
    } else if words[0] == "re"@ {
        Command::Re(re_command_of(words.drop_first()))
    } else {
        Command::Unsupported
    }
}

/// The views of a list of words.
pub open spec fn words_view(words: Seq<String>) -> Seq<Seq<char>> {
    words.map_values(|w: String| w@)
}

fn word_is(word: &String, expected: &str) -> (r: bool)
    ensures
        r == (word@ == expected@),
{
    *word == String::from_str(expected)
}

/// The process identifier a word denotes, if it is one.
pub fn parse_process_id(word: &str) -> (r: Option<ObjectId>)
    ensures
        r == process_id_of(word@),
{
    let n = word.unicode_len();
    let start: usize = if n > 0 && word.get_char(0) == '+' {
        1
    } else {
        0
    };
    let ghost digits = word@.subrange(start as int, n as int);
    proof {
        if start == 1 {
            assert(digits =~= word@.drop_first());
        } else {
            assert(digits =~= word@);
        }
        assert(process_id_of(word@) == digits_id(digits));
    }
    if n == start {
        return None;
    }
    let mut value: u64 = 0;
    let mut i: usize = start;
    while i < n
        invariant
            n == word@.len(),
            start <= i <= n,
            digits == word@.subrange(start as int, n as int),
            process_id_of(word@) == digits_id(digits),
            value == digits_value(digits.subrange(0, i - start)),
            value <= u32::MAX,
            forall|k: int| 0 <= k < i - start ==> is_digit(#[trigger] digits[k]),
        decreases n - i,
    {
        let c = word.get_char(i);
        assert(digits[i - start] == c);
        if !('0' <= c && c <= '9') {
            assert(!is_digit(digits[i - start]));
            return None;
        }
        let d: u64 = (c as u32 - '0' as u32) as u64;
        proof {
            let t = digits.subrange(0, i - start + 1);
            assert(t.drop_last() =~= digits.subrange(0, i - start));
            assert(t.last() == c);
        }
        value = value * 10 + d;
        if value > u32::MAX as u64 {
            proof {
                if forall|k: int| 0 <= k < digits.len() ==> is_digit(#[trigger] digits[k]) {
                    lemma_digits_value_grows(digits, i - start + 1);
                }
            }
            return None;
        }
        i = i + 1;
    }
    assert(digits.subrange(0, n - start) =~= digits);
    Some(value as ObjectId)
}

/// A longer run of digits is worth at least as much as its prefix.
proof fn lemma_digits_value_grows(s: Seq<char>, i: int)
    requires
        0 <= i <= s.len(),
        forall|k: int| 0 <= k < s.len() ==> is_digit(#[trigger] s[k]),
    ensures
        digits_value(s) >= digits_value(s.subrange(0, i)),
        digits_value(s.subrange(0, i)) >= 0,
    decreases s.len(),
{
    if s.len() == 0 {
        return;
    }
    if i == s.len() {
        assert(s.subrange(0, i) =~= s);
        lemma_digits_value_nonneg(s);
        return;
    }
    let t = s.drop_last();
    assert(t.subrange(0, i) =~= s.subrange(0, i));
    lemma_digits_value_grows(t, i);
    lemma_digits_value_nonneg(t);
}

proof fn lemma_digits_value_nonneg(s: Seq<char>)
    requires
        forall|k: int| 0 <= k < s.len() ==> is_digit(#[trigger] s[k]),
    ensures
        digits_value(s) >= 0,
    decreases s.len(),
{
    if s.len() > 0 {
        lemma_digits_value_nonneg(s.drop_last());
    }
}

/// Parses the words of a command line.
pub fn parse_command(words: &Vec<String>) -> (r: Command)
    ensures
        r == command_of(words_view(words@)),
{
    let ghost w = words_view(words@);
    if words.len() == 0 {
        return Command::Unsupported;
    }
    let first = &words[0];
    if word_is(first, "help") {
        Command::Help
    } else if word_is(first, "quit") {
        Command::Quit
    } else if word_is(first, "process") {
        let action = if words.len() < 2 {
            ProcessCommand::Unsupported
        } else if word_is(&words[1], "help") {
            ProcessCommand::Help
        } else if word_is(&words[1], "listall") {
            ProcessCommand::ListAll
        } else {
            ProcessCommand::Unsupported
        };
        assert(action == process_command_of(w.drop_first()));
        Command::Process(action)
    } else if word_is(first, "re") {
        let action = if words.len() < 2 {
            ReCommand::Unsupported
        } else if word_is(&words[1], "help") {
            ReCommand::Help
        } else if word_is(&words[1], "start") {
            if words.len() < 3 {
                ReCommand::MissingProcessId
            } else {
                match parse_process_id(words[2].as_str()) {
                    Some(id) => ReCommand::Start(id),
                    None => ReCommand::BadProcessId,
                }
            }
        } else {
            ReCommand::Unsupported
        };
        assert(action == re_command_of(w.drop_first()));
        Command::Re(action)
    } else {
        Command::Unsupported
    }
}

} // verus!
