//! Wire protocol shared by the two channels: the address patterns that carry
//! meaning, and their parsing. A message is an address pattern plus a
//! positional argument list; the receiver reads only the address, so the
//! functions here work on the address string alone.

use vstd::prelude::*;

verus! {

/// A playback command carried controller -> worker on the command channel.
///
/// A command has no payload beyond its kind; sending the same command twice
/// is a no-op at the engine layer, never an error.
#[derive(Clone, Copy, PartialEq, Eq, Structural, Debug)]
pub enum Command {
    Play,
    Pause,
}

/// The last-known pipeline state as the controller records it. `Unknown` is
/// the initial value before any worker notification arrives; the controller
/// never infers state, it only records what the state channel tells it.
#[derive(Clone, Copy, PartialEq, Eq, Structural, Debug)]
pub enum PipelineState {
    Unknown,
    Playing,
    Paused,
    Error,
    EndOfStream,
}

/// The conventional positional argument carried by every message on either
/// channel; receivers ignore it, the address pattern alone is the unit of
/// meaning.
pub const MESSAGE_ARGUMENT: i32 = 1;

/// String equality on character views, checked one character at a time.
pub fn str_eq(a: &str, b: &str) -> (r: bool)
    ensures
        r == (a@ == b@),
{
    let a_len = a.unicode_len();
    let b_len = b.unicode_len();
    if a_len != b_len {
        return false;
    }
    let mut i: usize = 0;
    while i < a_len
        invariant
            i <= a_len,
            a_len == a@.len(),
            b_len == b@.len(),
            a_len == b_len,
            forall|j: int| 0 <= j < i ==> a@[j] == b@[j],
        decreases a_len - i,
    {
        if a.get_char(i) != b.get_char(i) {
            return false;
        }
        i += 1;
    }
    proof {
        assert(a@ =~= b@);
    }
    true
}

/// The address pattern that requests a command.
pub open spec fn spec_command_address(c: Command) -> Seq<char> {
    match c {
        Command::Play => "/command/play"@,
        Command::Pause => "/command/pause"@,
    }
}

/// Renders a command as its wire address pattern.
pub fn command_address(c: Command) -> (r: &'static str)
    ensures
        r@ == spec_command_address(c),
{
    match c {
        Command::Play => "/command/play",
        Command::Pause => "/command/pause",
    }
}

/// The command, if any, that an address pattern on the command channel
/// requests; any other pattern is unrecognized and means nothing.
pub open spec fn spec_parse_command(s: Seq<char>) -> Option<Command> {
    if s == "/command/play"@ {
        Some(Command::Play)
    } else if s == "/command/pause"@ {
        Some(Command::Pause)
    } else {
        None
    }
}

/// Parses an address pattern received on the command channel.
pub fn parse_command(addr: &str) -> (r: Option<Command>)
    ensures
        r == spec_parse_command(addr@),
{
    if str_eq(addr, "/command/play") {
        Some(Command::Play)
    } else if str_eq(addr, "/command/pause") {
        Some(Command::Pause)
    } else {
        None
    }
}

/// The address pattern that announces a pipeline state on the state channel.
/// `Unknown` is never announced: it stands only for "nothing heard yet".
pub open spec fn spec_state_address(s: PipelineState) -> Option<Seq<char>> {
    match s {
        PipelineState::Unknown => None,
        PipelineState::Playing => Some("/state/playing"@),
        PipelineState::Paused => Some("/state/paused"@),
        PipelineState::Error => Some("/state/error"@),
        PipelineState::EndOfStream => Some("/state/eos"@),
    }
}

/// Renders a pipeline state as its wire address pattern, or `None` for
/// `Unknown`, which has no wire representation.
pub fn state_address(s: PipelineState) -> (r: Option<&'static str>)
    ensures
        (match r {
            Some(a) => spec_state_address(s) == Some(a@),
            None => spec_state_address(s) is None,
        }),
{
    match s {
        PipelineState::Unknown => None,
        PipelineState::Playing => Some("/state/playing"),
        PipelineState::Paused => Some("/state/paused"),
        PipelineState::Error => Some("/state/error"),
        PipelineState::EndOfStream => Some("/state/eos"),
    }
}

/// The pipeline state, if any, that an address pattern on the state channel
/// announces; any other pattern is unrecognized and means nothing.
pub open spec fn spec_parse_state(s: Seq<char>) -> Option<PipelineState> {
    if s == "/state/playing"@ {
        Some(PipelineState::Playing)
    } else if s == "/state/paused"@ {
        Some(PipelineState::Paused)
    } else if s == "/state/error"@ {
        Some(PipelineState::Error)
    } else if s == "/state/eos"@ {
        Some(PipelineState::EndOfStream)
    } else {
        None
    }
}

/// Parses an address pattern received on the state channel.
pub fn parse_state(addr: &str) -> (r: Option<PipelineState>)
    ensures
        r == spec_parse_state(addr@),
{
    if str_eq(addr, "/state/playing") {
        Some(PipelineState::Playing)
    } else if str_eq(addr, "/state/paused") {
        Some(PipelineState::Paused)
    } else if str_eq(addr, "/state/error") {
        Some(PipelineState::Error)
    } else if str_eq(addr, "/state/eos") {
        Some(PipelineState::EndOfStream)
    } else {
        None
    }
}

/// Every command address parses back to the command it was rendered from:
/// the command channel's vocabulary is unambiguous.
pub proof fn lemma_command_address_parses(c: Command)
    ensures
        spec_parse_command(spec_command_address(c)) == Some(c),
{
    reveal_strlit("/command/play");
    reveal_strlit("/command/pause");
    assert("/command/play"@.len() == 13);
    assert("/command/pause"@.len() == 14);
}

/// Every state address parses back to the state it was rendered from: the
/// state channel's vocabulary is unambiguous.
pub proof fn lemma_state_address_parses(s: PipelineState)
    requires
        s != PipelineState::Unknown,
    ensures
        spec_state_address(s) matches Some(a) && spec_parse_state(a) == Some(s),
{
    reveal_strlit("/state/playing");
    reveal_strlit("/state/paused");
    reveal_strlit("/state/error");
    reveal_strlit("/state/eos");
    assert("/state/playing"@.len() == 14);
    assert("/state/paused"@.len() == 13);
    assert("/state/error"@.len() == 12);
    assert("/state/eos"@.len() == 10);
}

} // verus!
