//! The debugger's commands, as typed at its prompt.
use vstd::prelude::*;
use vstd::string::*;

verus! {

#[derive(Debug, Clone, Copy, PartialEq, Eq, Structural)]
pub enum Command {
    RunStop,
    Step,
    Quit,
}

/// The command a word names: `run` or `r`, `step` or `s`, `quit`, `exit`
/// or `q` (the bytes of the word, all of it).
pub open spec fn command_of(b: Seq<u8>) -> Option<Command> {
    if b == seq![0x72u8, 0x75u8, 0x6Eu8] || b == seq![0x72u8] {
        Some(Command::RunStop)
    } else if b == seq![0x73u8, 0x74u8, 0x65u8, 0x70u8] || b == seq![0x73u8] {
        Some(Command::Step)
    } else if b == seq![0x71u8, 0x75u8, 0x69u8, 0x74u8] || b == seq![0x65u8, 0x78u8, 0x69u8, 0x74u8] || b
        == seq![0x71u8] {
        Some(Command::Quit)
    } else {
        None
    }
}

/// Whether `a` holds the bytes `b`.
fn bytes_eq(a: &[u8], b: &[u8]) -> (r: bool)
    ensures
        r == (a@ == b@),
{
    if a.len() != b.len() {
        return false;
    }
    let mut i: usize = 0;
    while i < a.len()
        invariant
            a@.len() == b@.len(),
            i <= a@.len(),
            forall|k: int| 0 <= k < i ==> a@[k] == b@[k],
        decreases a@.len() - i,
    {
        if a[i] != b[i] {
            return false;
        }
        i += 1;
    }
    proof {
        assert(a@ =~= b@);
    }
    true
}

/// The text that `format!("{:?}", s)` writes for the string `s` (std's
/// `Debug` for `str`): the string in double quotes, with quotes,
/// backslashes and characters that do not print escaped.
pub uninterp spec fn str_debug_text(s: Seq<char>) -> Seq<char>;

/// Calls `format!("{:?}", s)`, std's `Debug` for `str`. Its contract claims
/// only that the text is the one `str_debug_text` names for `s`.
#[verifier::external_body]
fn str_debug(s: &str) -> (r: String)
    ensures
        r@ == str_debug_text(s@),
{
    format!("{:?}", s)
}

/// The message of a refused command, around the debug form of the input:
/// the parser's error (a failed tag match at the start of the input)
/// after `Cannot parse command: `.
pub open spec fn refusal_text(debug_input: Seq<char>) -> Seq<char> {
    "Cannot parse command: Error(Error { input: "@ + debug_input + ", code: Tag })"@
}

/// Builds the message of a refused command from the debug form of its
/// input.
pub fn refusal_message(debug_input: &str) -> (r: String)
    ensures
        r@ == refusal_text(debug_input@),
{
    let mut msg = String::from_str("Cannot parse command: Error(Error { input: ");
    msg.append(debug_input);
    msg.append(", code: Tag })");
    msg
}

/// Parses a command word; anything else is refused with a message.
pub fn parse_command(s: &str) -> (r: Result<Command, String>)
    ensures
        match command_of(s.spec_bytes()) {
            Some(c) => r == Ok::<Command, String>(c),
            None => r matches Err(m) && m@ == refusal_text(str_debug_text(s@)),
        },
{
    let b = s.as_bytes();
    let run: [u8; 3] = [0x72, 0x75, 0x6E];
    let r: [u8; 1] = [0x72];
    let step: [u8; 4] = [0x73, 0x74, 0x65, 0x70];
    let st: [u8; 1] = [0x73];
    let quit: [u8; 4] = [0x71, 0x75, 0x69, 0x74];
    let exit: [u8; 4] = [0x65, 0x78, 0x69, 0x74];
    let q: [u8; 1] = [0x71];
    proof {
        assert(run@ == seq![0x72u8, 0x75u8, 0x6Eu8]);
        assert(r@ == seq![0x72u8]);
        assert(step@ == seq![0x73u8, 0x74u8, 0x65u8, 0x70u8]);
        assert(st@ == seq![0x73u8]);
        assert(quit@ == seq![0x71u8, 0x75u8, 0x69u8, 0x74u8]);
        assert(exit@ == seq![0x65u8, 0x78u8, 0x69u8, 0x74u8]);
        assert(q@ == seq![0x71u8]);
    }
    if bytes_eq(b, run.as_slice()) || bytes_eq(b, r.as_slice()) {
        Ok(Command::RunStop)
    } else if bytes_eq(b, step.as_slice()) || bytes_eq(b, st.as_slice()) {
        Ok(Command::Step)
    } else if bytes_eq(b, quit.as_slice()) || bytes_eq(b, exit.as_slice()) || bytes_eq(b, q.as_slice()) {
        Ok(Command::Quit)
    } else {
        let debug_input = str_debug(s);
        Err(refusal_message(debug_input.as_str()))
    }
}

impl std::str::FromStr for Command {
    type Err = String;

    fn from_str(s: &str) -> (r: Result<Self, Self::Err>)
        ensures
            match command_of(s.spec_bytes()) {
                Some(c) => r == Ok::<Command, String>(c),
                None => r matches Err(m) && m@ == refusal_text(str_debug_text(s@)),
            },
    {
        parse_command(s)
    }
}

} // verus!
