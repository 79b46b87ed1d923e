use c64core::debugger::{parse_debugger_command, Debugger, DebuggerCommand, DebuggerState};
use c64core::mos6510::Effect;

#[test]
fn debugger_commands_parse() {
    assert_eq!(parse_debugger_command(""), Some(DebuggerCommand::Step));
    assert_eq!(parse_debugger_command("r"), Some(DebuggerCommand::Run { verbose: false }));
    assert_eq!(parse_debugger_command("r v"), Some(DebuggerCommand::Run { verbose: true }));
    assert_eq!(parse_debugger_command("b e5cd"), Some(DebuggerCommand::AddBreakpoint { addr: 0xE5CD }));
    assert_eq!(parse_debugger_command("w D020"), Some(DebuggerCommand::AddWatchpoint { addr: 0xD020 }));
    assert_eq!(parse_debugger_command("i 0"), Some(DebuggerCommand::Inspect { addr: 0 }));
    assert_eq!(parse_debugger_command("i 12345"), None);
    assert_eq!(parse_debugger_command("b xyz"), None);
    assert_eq!(parse_debugger_command("b "), None);
    assert_eq!(parse_debugger_command("x"), None);
}

#[test]
fn debugger_breakpoints_and_watchpoints() {
    let mut d = Debugger::new();
    assert!(d.apply(DebuggerCommand::AddBreakpoint { addr: 0x1234 }));
    assert!(d.apply(DebuggerCommand::AddBreakpoint { addr: 0x1234 }));
    assert_eq!(d.breakpoints.len(), 1);
    assert!(d.is_breakpoint(0x1234));
    assert!(!d.is_breakpoint(0x1235));
    assert!(d.apply(DebuggerCommand::AddWatchpoint { addr: 0xD020 }));
    assert!(d.is_watched(Some(Effect::WriteMem { addr: 0xD020, value: 1 })));
    assert!(!d.is_watched(Some(Effect::WriteMem { addr: 0xD021, value: 1 })));
    assert!(!d.is_watched(None));
    assert!(d.apply(DebuggerCommand::Run { verbose: true }));
    assert_eq!(d.state, DebuggerState::Run { verbose: true });
    assert!(!d.apply(DebuggerCommand::Exit));
}
