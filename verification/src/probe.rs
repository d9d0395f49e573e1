//! The capability probe: turns what the operating system reported about a
//! stream's handle into the one boolean "supports interactive colored output".
//!
//! On POSIX-like systems the whole probe is one terminal-check system call
//! (`probe_simple`). On systems with a console subsystem the probe is a
//! four-way discrimination (`probe_complex`): a native VT-capable console, a
//! legacy console without VT support, a plain file redirection, or a pipe that
//! may belong to a known pseudo-console emulator, recognized by the prefix of
//! its pipe name.

use vstd::prelude::*;

verus! {

/// On POSIX-like systems the terminal check is a single system call that
/// answers 1 for a character-terminal device and 0 otherwise. This function
/// is the whole decision for that platform family: the descriptor is
/// interactive exactly when the call answered 1.
pub fn probe_simple(isatty_answer: i32) -> (interactive: bool)
    ensures
        interactive == (isatty_answer == 1),
{
    isatty_answer == 1
}

/// Everything the complex-platform probe learns from the operating system
/// about a stream's handle, staged as the queries are made: handle
/// resolution, then the console-mode query, then the file-type query, then
/// the best-effort pipe-name retrieval. The name is carried as the
/// wide-character units the name query reports.
pub enum HandleReport {
    /// Handle resolution returned no handle: the process has no attached
    /// console or streams.
    Missing,
    /// The console-mode query succeeded, so the handle is a real console;
    /// `vt_enable_ok` records whether setting the VT-processing mode flag on
    /// it then succeeded.
    Console { vt_enable_ok: bool },
    /// Not a console, and the file-type query said the handle is not a pipe:
    /// an ordinary file or device redirection.
    FileRedirect,
    /// Not a console, but a pipe; `name` is the pipe's retrieved name, or
    /// `None` if the name query failed.
    Pipe { name: Option<Vec<u16>> },
}

/// The four-way classification's terminal states, one per definitive answer.
#[derive(Clone, Copy, Debug, PartialEq, Eq, Structural)]
pub enum Classification {
    /// No attached handle.
    NoHandle,
    /// A real console that accepted the VT-processing mode flag.
    NativeVtConsole,
    /// A real console that rejected the VT-processing mode flag: an older
    /// console subsystem that cannot render VT sequences.
    LegacyConsoleNoVt,
    /// Redirection to an ordinary file or non-pipe device.
    FileRedirect,
    /// A pipe whose name starts with a known emulator's prefix.
    EmulatorMatch,
    /// A genuine anonymous pipe, or one whose name is unavailable or
    /// unrecognized.
    PlainPipe,
}

/// The pipe-name prefix of the ConEmu pseudo-console, `\ConEmuHk`, as
/// wide-character units.
pub open spec fn spec_conemu_prefix() -> Seq<u16> {
    seq![92u16, 67u16, 111u16, 110u16, 69u16, 109u16, 117u16, 72u16, 107u16]
}

/// The pipe-name prefix of the Cygwin pseudo-terminal, `\cygwin-`, as
/// wide-character units.
pub open spec fn spec_cygwin_prefix() -> Seq<u16> {
    seq![92u16, 99u16, 121u16, 103u16, 119u16, 105u16, 110u16, 45u16]
}

/// The pipe-name prefix of the MSYS pseudo-terminal, `\msys-`, as
/// wide-character units.
pub open spec fn spec_msys_prefix() -> Seq<u16> {
    seq![92u16, 109u16, 115u16, 121u16, 115u16, 45u16]
}

/// `name` starts with `prefix`, unit for unit: the match is case-sensitive
/// and anchored at the very first unit.
pub open spec fn spec_starts_with(name: Seq<u16>, prefix: Seq<u16>) -> bool {
    prefix.len() <= name.len() && name.take(prefix.len() as int) == prefix
}

/// A pipe name that belongs to one of the known pseudo-console emulator
/// families: it starts with the ConEmu, Cygwin or MSYS prefix.
pub open spec fn spec_is_emulator_name(name: Seq<u16>) -> bool {
    ||| spec_starts_with(name, spec_conemu_prefix())
    ||| spec_starts_with(name, spec_cygwin_prefix())
    ||| spec_starts_with(name, spec_msys_prefix())
}

/// Whether `name` starts with `prefix`, compared unit for unit.
fn starts_with(name: &Vec<u16>, prefix: &Vec<u16>) -> (r: bool)
    ensures
        r == spec_starts_with(name@, prefix@),
{
    if prefix.len() > name.len() {
        return false;
    }
    let mut i: usize = 0;
    while i < prefix.len()
        invariant
            i <= prefix@.len(),
            prefix@.len() <= name@.len(),
            forall|j: int| 0 <= j < i ==> name@[j] == prefix@[j],
        decreases prefix@.len() - i,
    {
        if name[i] != prefix[i] {
            assert(name@.take(prefix@.len() as int)[i as int] != prefix@[i as int]);
            return false;
        }
        i = i + 1;
    }
    proof {
        assert(name@.take(prefix@.len() as int) =~= prefix@);
    }
    true
}

/// The ConEmu prefix as an executable vector of wide-character units.
fn conemu_prefix() -> (p: Vec<u16>)
    ensures
        p@ == spec_conemu_prefix(),
{
    let p: Vec<u16> = vec![92u16, 67u16, 111u16, 110u16, 69u16, 109u16, 117u16, 72u16, 107u16];
    proof {
        assert(p@ =~= spec_conemu_prefix());
    }
    p
}

/// The Cygwin prefix as an executable vector of wide-character units.
fn cygwin_prefix() -> (p: Vec<u16>)
    ensures
        p@ == spec_cygwin_prefix(),
{
    let p: Vec<u16> = vec![92u16, 99u16, 121u16, 103u16, 119u16, 105u16, 110u16, 45u16];
    proof {
        assert(p@ =~= spec_cygwin_prefix());
    }
    p
}

/// The MSYS prefix as an executable vector of wide-character units.
fn msys_prefix() -> (p: Vec<u16>)
    ensures
        p@ == spec_msys_prefix(),
{
    let p: Vec<u16> = vec![92u16, 109u16, 115u16, 121u16, 115u16, 45u16];
    proof {
        assert(p@ =~= spec_msys_prefix());
    }
    p
}

/// Whether a retrieved pipe name belongs to a known pseudo-console emulator
/// family, by case-sensitive prefix match against the three known prefixes.
pub fn is_emulator_pipe_name(name: &Vec<u16>) -> (r: bool)
    ensures
        r == spec_is_emulator_name(name@),
{
    let conemu = conemu_prefix();
    let cygwin = cygwin_prefix();
    let msys = msys_prefix();
    starts_with(name, &conemu) || starts_with(name, &cygwin) || starts_with(name, &msys)
}

/// The classification a report resolves to, branch by branch.
pub open spec fn spec_classify(report: HandleReport) -> Classification {
    match report {
        HandleReport::Missing => Classification::NoHandle,
        HandleReport::Console { vt_enable_ok } => if vt_enable_ok {
            Classification::NativeVtConsole
        } else {
            Classification::LegacyConsoleNoVt
        },
        HandleReport::FileRedirect => Classification::FileRedirect,
        HandleReport::Pipe { name } => match name {
            Option::Some(n) => if spec_is_emulator_name(n@) {
                Classification::EmulatorMatch
            } else {
                Classification::PlainPipe
            },
            Option::None => Classification::PlainPipe,
        },
    }
}

/// The classifications on which colored output is emitted: a native console
/// with verified VT support, or a known emulator's pipe.
pub open spec fn spec_is_interactive(c: Classification) -> bool {
    c == Classification::NativeVtConsole || c == Classification::EmulatorMatch
}

/// Resolves a report to its terminal state.
pub fn classify(report: &HandleReport) -> (c: Classification)
    ensures
        c == spec_classify(*report),
{
    match report {
        HandleReport::Missing => Classification::NoHandle,
        HandleReport::Console { vt_enable_ok } => if *vt_enable_ok {
            Classification::NativeVtConsole
        } else {
            Classification::LegacyConsoleNoVt
        },
        HandleReport::FileRedirect => Classification::FileRedirect,
        HandleReport::Pipe { name } => match name {
            Option::Some(n) => if is_emulator_pipe_name(n) {
                Classification::EmulatorMatch
            } else {
                Classification::PlainPipe
            },
            Option::None => Classification::PlainPipe,
        },
    }
}

/// The complex-platform probe decision. Every failure the report can record
/// — no handle, a console that rejects the VT flag, a non-pipe redirection,
/// a pipe whose name is unavailable or unrecognized — yields false, the safe
/// "no color" default; only a native VT console or a known emulator pipe
/// yields true.
pub fn probe_complex(report: &HandleReport) -> (interactive: bool)
    ensures
        interactive == spec_is_interactive(spec_classify(*report)),
        report is Missing ==> !interactive,
        report matches HandleReport::Console { vt_enable_ok } ==> interactive == vt_enable_ok,
        report is FileRedirect ==> !interactive,
        report matches HandleReport::Pipe { name: Option::None } ==> !interactive,
        report matches HandleReport::Pipe { name: Option::Some(nm) }
            ==> interactive == spec_is_emulator_name(nm@),
{
    let c = classify(report);
    match c {
        Classification::NativeVtConsole => true,
        Classification::EmulatorMatch => true,
        Classification::NoHandle => false,
        Classification::LegacyConsoleNoVt => false,
        Classification::FileRedirect => false,
        Classification::PlainPipe => false,
    }
}

/// Emulator matching is prefix-only: it reads at most the first nine
/// wide-character units of a name (the length of the longest known prefix),
/// so two names that agree on those units classify alike, whatever follows.
pub proof fn lemma_emulator_match_prefix_only(a: Seq<u16>, b: Seq<u16>)
    requires
        a.len() >= 9,
        b.len() >= 9,
        a.take(9) == b.take(9),
    ensures
        spec_is_emulator_name(a) == spec_is_emulator_name(b),
{
    assert(a.take(9).take(9) =~= a.take(9));
    assert(a.take(9).take(8) =~= a.take(8));
    assert(a.take(9).take(6) =~= a.take(6));
    assert(b.take(9).take(9) =~= b.take(9));
    assert(b.take(9).take(8) =~= b.take(8));
    assert(b.take(9).take(6) =~= b.take(6));
}

} // verus!
