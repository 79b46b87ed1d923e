use vstd::prelude::*;

use crate::mos6510::Effect;
use vstd::string::StringSliceAdditionalSpecFns;

verus! {

/// A command of the line-oriented debugger.
#[derive(Clone, Copy, PartialEq, Eq, Structural, Debug)]
pub enum DebuggerCommand {
    Step,
    AddBreakpoint { addr: u16 },
    AddWatchpoint { addr: u16 },
    Run { verbose: bool },
    Exit,
    Inspect { addr: u16 },
}

/// What the debugger does between prompts.
#[derive(Clone, Copy, PartialEq, Eq, Structural, Debug)]
pub enum DebuggerState {
    Pause,
    Step,
    Run { verbose: bool },
}

pub const CHAR_B: u8 = 0x62;
pub const CHAR_I: u8 = 0x69;
pub const CHAR_R: u8 = 0x72;
pub const CHAR_V: u8 = 0x76;
pub const CHAR_W: u8 = 0x77;
pub const SPACE: u8 = 0x20;

/// Value of an ASCII hexadecimal digit, either case.
pub open spec fn hex_digit(c: u8) -> Option<u8> {
    if 0x30 <= c <= 0x39 {
        Some((c - 0x30) as u8)
    } else if 0x61 <= c <= 0x66 {
        Some((c - 0x61 + 10) as u8)
    } else if 0x41 <= c <= 0x46 {
        Some((c - 0x41 + 10) as u8)
    } else {
        None
    }
}

/// Value of a string of hexadecimal digits, most significant first.
pub open spec fn hex_value(s: Seq<u8>) -> nat
    decreases s.len(),
{
    if s.len() == 0 {
        0
    } else {
        hex_value(s.drop_last()) * 16 + hex_digit(s.last())->0 as nat
    }
}

/// One to four hexadecimal digits, as an address.
pub open spec fn parse_hex_address(s: Seq<u8>) -> Option<u16> {
    if 1 <= s.len() <= 4 && forall|i: int| 0 <= i < s.len() ==> (#[trigger] hex_digit(s[i])) is Some {
        Some(hex_value(s) as u16)
    } else {
        None
    }
}

/// The command a (trimmed) input line stands for: the empty line steps,
/// `r` runs, `r v` runs with tracing, and `b`, `w` or `i` followed by a space
/// and one to four hexadecimal digits add a breakpoint, add a watchpoint or
/// inspect memory.
pub open spec fn parse_command(b: Seq<u8>) -> Option<DebuggerCommand> {
    if b.len() == 0 {
        Some(DebuggerCommand::Step)
    } else if b == seq![CHAR_R] {
        Some(DebuggerCommand::Run { verbose: false })
    } else if b == seq![CHAR_R, SPACE, CHAR_V] {
        Some(DebuggerCommand::Run { verbose: true })
    } else if b.len() >= 2 && b[1] == SPACE && (b[0] == CHAR_B || b[0] == CHAR_W || b[0] == CHAR_I) {
        match parse_hex_address(b.subrange(2, b.len() as int)) {
            Some(addr) => Some(
                if b[0] == CHAR_B {
                    DebuggerCommand::AddBreakpoint { addr }
                } else if b[0] == CHAR_W {
                    DebuggerCommand::AddWatchpoint { addr }
                } else {
                    DebuggerCommand::Inspect { addr }
                },
            ),
            None => None,
        }
    } else {
        None
    }
}

fn hex_digit_value(c: u8) -> (r: Option<u8>)
    ensures
        r == hex_digit(c),
{
    if 0x30 <= c && c <= 0x39 {
        Some(c - 0x30)
    } else if 0x61 <= c && c <= 0x66 {
        Some(c - 0x61 + 10)
    } else if 0x41 <= c && c <= 0x46 {
        Some(c - 0x41 + 10)
    } else {
        None
    }
}

/// Parses `b[start..]` as one to four hexadecimal digits.
fn parse_address(b: &[u8], start: usize) -> (r: Option<u16>)
    requires
        start <= b@.len(),
    ensures
        r == parse_hex_address(b@.subrange(start as int, b@.len() as int)),
{
    let ghost s = b@.subrange(start as int, b@.len() as int);
    let n = b.len() - start;
    if n < 1 || n > 4 {
        return None;
    }
    let mut value: u32 = 0;
    let mut i: usize = 0;
    while i < n
        invariant
            n == s.len(),
            1 <= n <= 4,
            i <= n,
            start + n == b@.len(),
            s == b@.subrange(start as int, b@.len() as int),
            forall|k: int| 0 <= k < i ==> (#[trigger] hex_digit(s[k])) is Some,
            value as nat == hex_value(s.subrange(0, i as int)),
            value < 0x10000,
            i < 4 ==> value < 0x1000,
            i < 3 ==> value < 0x100,
            i < 2 ==> value < 0x10,
            i < 1 ==> value == 0,
        decreases n - i,
    {
        match hex_digit_value(b[start + i]) {
            None => {
                assert(hex_digit(s[i as int]) is None);
                return None;
            },
            Some(d) => {
                assert(s.subrange(0, i + 1).drop_last() =~= s.subrange(0, i as int));
                assert(d < 16);
                value = value * 16 + d as u32;
                i = i + 1;
            },
        }
    }
    assert(s.subrange(0, n as int) =~= s);
    Some(value as u16)
}

/// Parses a trimmed input line into a debugger command.
pub fn parse_debugger_command(input: &str) -> (r: Option<DebuggerCommand>)
    ensures
        r == parse_command(input.spec_bytes()),
{
    let b = input.as_bytes();
    let n = b.len();
    if n == 0 {
        Some(DebuggerCommand::Step)
    } else if n == 1 && b[0] == CHAR_R {
        assert(b@ =~= seq![CHAR_R]);
        Some(DebuggerCommand::Run { verbose: false })
    } else if n == 3 && b[0] == CHAR_R && b[1] == SPACE && b[2] == CHAR_V {
        assert(b@ =~= seq![CHAR_R, SPACE, CHAR_V]);
        Some(DebuggerCommand::Run { verbose: true })
    } else if n >= 2 && b[1] == SPACE && (b[0] == CHAR_B || b[0] == CHAR_W || b[0] == CHAR_I) {
        assert(b@ != seq![CHAR_R]);
        assert(b@.len() == 3 ==> b@ != seq![CHAR_R, SPACE, CHAR_V]);
        match parse_address(b, 2) {
            Some(addr) => Some(
                if b[0] == CHAR_B {
                    DebuggerCommand::AddBreakpoint { addr }
                } else if b[0] == CHAR_W {
                    DebuggerCommand::AddWatchpoint { addr }
                } else {
                    DebuggerCommand::Inspect { addr }
                },
            ),
            None => None,
        }
    } else {
        assert(n == 1 ==> b@ != seq![CHAR_R] || b[0] == CHAR_R);
        assert(b@ == seq![CHAR_R] ==> (n == 1 && b[0] == CHAR_R));
        assert(b@ == seq![CHAR_R, SPACE, CHAR_V] ==> (n == 3 && b[0] == CHAR_R && b[1] == SPACE
            && b[2] == CHAR_V));
        None
    }
}

/// The debugger's state: what it does next, and its breakpoint and
/// watchpoint addresses, each held once.
pub struct Debugger {
    pub state: DebuggerState,
    pub breakpoints: Vec<u16>,
    pub watchpoints: Vec<u16>,
}

/// Appends `a` to a list of addresses unless it is there already.
fn insert_address(v: &mut Vec<u16>, a: u16)
    requires
        old(v)@.no_duplicates(),
    ensures
        final(v)@.no_duplicates(),
        final(v)@.to_set() == old(v)@.to_set().insert(a),
{
    let mut i: usize = 0;
    while i < v.len()
        invariant
            i <= v@.len(),
            v@ == old(v)@,
            old(v)@.no_duplicates(),
            forall|k: int| 0 <= k < i ==> v@[k] != a,
        decreases v@.len() - i,
    {
        if v[i] == a {
            assert(old(v)@.to_set().insert(a) =~= old(v)@.to_set());
            return;
        }
        i = i + 1;
    }
    v.push(a);
    assert(v@ == old(v)@.push(a));
    assert(v@.to_set() =~= old(v)@.to_set().insert(a)) by {
        assert forall|x: u16| v@.to_set().contains(x) <==> old(v)@.to_set().insert(a).contains(x) by {
            if x != a && v@.contains(x) {
                let k = choose|k: int| 0 <= k < v@.len() && v@[k] == x;
                assert(old(v)@[k] == x);
            }
            if x == a {
                assert(v@[v@.len() - 1] == a);
            }
            if old(v)@.contains(x) {
                let k = choose|k: int| 0 <= k < old(v)@.len() && old(v)@[k] == x;
                assert(v@[k] == x);
            }
        }
    }
}

/// Whether `a` is in the list.
fn contains_address(v: &Vec<u16>, a: u16) -> (r: bool)
    ensures
        r == v@.contains(a),
{
    let mut i: usize = 0;
    while i < v.len()
        invariant
            i <= v@.len(),
            forall|k: int| 0 <= k < i ==> v@[k] != a,
        decreases v@.len() - i,
    {
        if v[i] == a {
            return true;
        }
        i = i + 1;
    }
    false
}

impl Debugger {
    pub open spec fn wf(&self) -> bool {
        self.breakpoints@.no_duplicates() && self.watchpoints@.no_duplicates()
    }

    /// A paused debugger without breakpoints or watchpoints.
    pub fn new() -> (r: Debugger)
        ensures
            r.wf(),
            r.state == DebuggerState::Pause,
            r.breakpoints@ == Seq::<u16>::empty(),
            r.watchpoints@ == Seq::<u16>::empty(),
    {
        Debugger { state: DebuggerState::Pause, breakpoints: Vec::new(), watchpoints: Vec::new() }
    }

    /// Whether execution stops before the instruction at `pc`.
    pub fn is_breakpoint(&self, pc: u16) -> (r: bool)
        ensures
            r == self.breakpoints@.contains(pc),
    {
        contains_address(&self.breakpoints, pc)
    }

    /// Whether a side effect hits a watchpoint.
    pub fn is_watched(&self, effect: Option<Effect>) -> (r: bool)
        ensures
            r == (effect matches Some(Effect::WriteMem { addr, value }) && self.watchpoints@.contains(
                addr,
            )),
    {
        match effect {
            Some(Effect::WriteMem { addr, value }) => contains_address(&self.watchpoints, addr),
            None => false,
        }
    }

    /// Applies a command: `Run` and `Step` set what happens next; adding a
    /// breakpoint or watchpoint, or inspecting memory, pauses. Returns
    /// `false` for `Exit`, which changes nothing.
    pub fn apply(&mut self, cmd: DebuggerCommand) -> (r: bool)
        requires
            old(self).wf(),
        ensures
            final(self).wf(),
            r == (cmd != DebuggerCommand::Exit),
            final(self).state == match cmd {
                DebuggerCommand::Run { verbose } => DebuggerState::Run { verbose },
                DebuggerCommand::Step => DebuggerState::Step,
                DebuggerCommand::Exit => old(self).state,
                _ => DebuggerState::Pause,
            },
            final(self).breakpoints@.to_set() == match cmd {
                DebuggerCommand::AddBreakpoint { addr } => old(self).breakpoints@.to_set().insert(addr),
                _ => old(self).breakpoints@.to_set(),
            },
            final(self).watchpoints@.to_set() == match cmd {
                DebuggerCommand::AddWatchpoint { addr } => old(self).watchpoints@.to_set().insert(addr),
                _ => old(self).watchpoints@.to_set(),
            },
    {
        match cmd {
            DebuggerCommand::Run { verbose } => {
                self.state = DebuggerState::Run { verbose };
            },
            DebuggerCommand::Step => {
                self.state = DebuggerState::Step;
            },
            DebuggerCommand::AddBreakpoint { addr } => {
                insert_address(&mut self.breakpoints, addr);
                self.state = DebuggerState::Pause;
            },
            DebuggerCommand::AddWatchpoint { addr } => {
                insert_address(&mut self.watchpoints, addr);
                self.state = DebuggerState::Pause;
            },
            DebuggerCommand::Inspect { addr } => {
                self.state = DebuggerState::Pause;
            },
            DebuggerCommand::Exit => {
                return false;
            },
        }
        true
    }
}

} // verus!
