//! The interaction-loop protocol: one reconciliation step per resolved
//! key event.
//!
//! The caller (the unverified event loop) hands the engine's answers for
//! one key — whether the key was consumed, the composition context, and
//! any pending commit — to `process_engine_update`, which merges them
//! into the UI state and says what is left to do outside: write the
//! clipboard, fetch it, cancel the composition, or leave the loop.
//!
//! The protocol follows the discrete key-event path: the engine answers
//! each canonical key event with a consumed flag, and that flag drives
//! the fallback default behavior here. (The alternative, driving the
//! engine with textual key sequences, gives no such per-key answer.)

use vstd::prelude::*;

use crate::key_event::{
    KeyEvent, MOD_SHIFT, XK_0, XK_9, XK_BACKSPACE, XK_LOWER_A, XK_LOWER_Z, XK_RETURN, XK_SPACE,
    XK_UPPER_A, XK_UPPER_Z,
};
use crate::text::{clear_string, pop_char, push_char};
use crate::tui::{Candidate, UiData};

verus! {

/// One candidate as the engine's menu reports it.
#[derive(Debug)]
pub struct MenuCandidate {
    pub text: String,
    pub comment: String,
}

/// Snapshot of the engine's composition context after a key was
/// processed. `preedit` is `None` while no composition is active.
#[derive(Debug)]
pub struct EngineContext {
    pub preedit: Option<String>,
    pub candidates: Vec<MenuCandidate>,
    pub highlighted_index: usize,
}

/// The three configured command sentinels.
#[derive(Debug)]
pub struct CommandSet {
    pub exit: String,
    pub copy: String,
    pub load: String,
}

/// Which sentinel the displayed preedit equals, if any. Exit wins over
/// copy and copy over load should sentinels be configured equal.
#[derive(Clone, Copy, Debug, PartialEq, Eq, Structural)]
pub enum CommandKind {
    NoCommand,
    ExitCommand,
    CopyCommand,
    LoadCommand,
}

/// What the caller must still do after one reconciliation step.
#[derive(Debug)]
pub struct IterationOutcome {
    /// Leave the loop once this iteration is done.
    pub terminate: bool,
    /// Text to write to the clipboard, for a matched copy sentinel.
    pub clipboard_write: Option<String>,
    /// Fetch the clipboard and hand it to `apply_loaded_clipboard`.
    pub load_requested: bool,
    /// Ask the engine to cancel the active composition (an Escape).
    pub cancel_composition: bool,
}

/// The interaction loop's two states.
#[derive(Clone, Copy, Debug, PartialEq, Eq, Structural)]
pub enum LoopState {
    Running,
    Terminating,
}

/// The preedit text the UI shows: empty while no composition is active.
pub open spec fn spec_displayed_preedit(ctx: EngineContext) -> Seq<char> {
    match ctx.preedit {
        None => Seq::<char>::empty(),
        Some(s) => s@,
    }
}

/// Whether the fallback default behavior applies to a key: the engine
/// declined it and no modifier other than Shift is set.
pub open spec fn spec_fallback_applies(key: KeyEvent, consumed: bool) -> bool {
    !consumed && (key.modifiers == 0 || key.modifiers == MOD_SHIFT)
}

/// The character a printable key code stands for (letters keep the case
/// the resolver chose, digits are themselves).
pub open spec fn spec_key_char(code: u32) -> char {
    (code as u8) as char
}

/// Whether a key code is one the fallback types literally.
pub open spec fn spec_is_literal_key(code: u32) -> bool {
    (XK_LOWER_A <= code && code <= XK_LOWER_Z) || (XK_UPPER_A <= code && code <= XK_UPPER_Z) || (
    XK_0 <= code && code <= XK_9)
}

/// The output text after the fallback default behavior for one key:
/// printable keys append their character; Backspace removes the last
/// output character, but only while no composition is active; Return
/// appends a newline; Space appends a space only while the displayed
/// preedit is empty; everything else leaves the output alone.
pub open spec fn spec_output_after_fallback(
    out: Seq<char>,
    key: KeyEvent,
    consumed: bool,
    ctx: EngineContext,
) -> Seq<char> {
    if !spec_fallback_applies(key, consumed) {
        out
    } else if spec_is_literal_key(key.key_code) {
        out.push(spec_key_char(key.key_code))
    } else if key.key_code == XK_BACKSPACE {
        if ctx.preedit is None && out.len() > 0 {
            out.drop_last()
        } else {
            out
        }
    } else if key.key_code == XK_RETURN {
        out.push('\n')
    } else if key.key_code == XK_SPACE {
        if spec_displayed_preedit(ctx).len() == 0 {
            out.push(' ')
        } else {
            out
        }
    } else {
        out
    }
}

/// The output text after a pending commit is consumed: its text is
/// appended exactly once; no commit appends nothing.
pub open spec fn spec_output_after_commit(out: Seq<char>, commit: Option<String>) -> Seq<char> {
    match commit {
        None => out,
        Some(c) => out + c@,
    }
}

/// The whole output text after one iteration: fallback first, then the
/// commit.
pub open spec fn spec_iteration_output(
    out: Seq<char>,
    key: KeyEvent,
    consumed: bool,
    ctx: EngineContext,
    commit: Option<String>,
) -> Seq<char> {
    spec_output_after_commit(spec_output_after_fallback(out, key, consumed, ctx), commit)
}

/// Which sentinel a displayed preedit matches.
pub open spec fn spec_command(preedit: Seq<char>, cmds: CommandSet) -> CommandKind {
    if preedit == cmds.exit@ {
        CommandKind::ExitCommand
    } else if preedit == cmds.copy@ {
        CommandKind::CopyCommand
    } else if preedit == cmds.load@ {
        CommandKind::LoadCommand
    } else {
        CommandKind::NoCommand
    }
}

/// The preedit the UI holds after the sentinel check: cleared by a copy
/// or load command, otherwise the displayed preedit itself.
pub open spec fn spec_preedit_after(ctx: EngineContext, cmds: CommandSet) -> Seq<char> {
    let cmd = spec_command(spec_displayed_preedit(ctx), cmds);
    if cmd is CopyCommand || cmd is LoadCommand {
        Seq::<char>::empty()
    } else {
        spec_displayed_preedit(ctx)
    }
}

/// Exec mirror of `spec_key_char` for the printable key codes.
pub fn key_char(code: u32) -> (c: char)
    requires
        spec_is_literal_key(code),
    ensures
        c == spec_key_char(code),
{
    (code as u8) as char
}

/// Decides which configured sentinel the given preedit matches.
pub fn command_of(preedit: &String, cmds: &CommandSet) -> (k: CommandKind)
    ensures
        k == spec_command(preedit@, *cmds),
{
    if *preedit == cmds.exit {
        CommandKind::ExitCommand
    } else if *preedit == cmds.copy {
        CommandKind::CopyCommand
    } else if *preedit == cmds.load {
        CommandKind::LoadCommand
    } else {
        CommandKind::NoCommand
    }
}

/// Merges one engine answer into the UI state and decides what is left
/// to do outside.
///
/// In order: the fallback default behavior for a declined key; the
/// candidate list and preedit copied out of the engine context, each
/// candidate highlighted exactly when its position equals the engine's
/// highlighted index; the pending commit appended to the output exactly
/// once; then the sentinel check on the displayed preedit. A matched
/// exit sentinel asks for termination; a matched copy sentinel asks for
/// exactly one clipboard write holding the full output and clears the
/// preedit; a matched load sentinel asks for a clipboard fetch and
/// clears the preedit. At most one of the three happens per iteration.
pub fn process_engine_update(
    ui: &mut UiData,
    key: KeyEvent,
    consumed: bool,
    ctx: &EngineContext,
    commit: Option<String>,
    cmds: &CommandSet,
) -> (out: IterationOutcome)
    ensures
        final(ui).output@ == spec_iteration_output(old(ui).output@, key, consumed, *ctx, commit),
        final(ui).preedit@ == spec_preedit_after(*ctx, *cmds),
        final(ui).candidates@.len() == ctx.candidates@.len(),
        forall|i: int|
            0 <= i < ctx.candidates@.len() ==> {
                &&& (#[trigger] final(ui).candidates@[i]).text@ == ctx.candidates@[i].text@
                &&& final(ui).candidates@[i].comment@ == ctx.candidates@[i].comment@
                &&& final(ui).candidates@[i].highlighted == (i == ctx.highlighted_index as int)
            },
        final(ui).log@ == old(ui).log@,
        final(ui).select_labels == old(ui).select_labels,
        out.terminate == (spec_command(spec_displayed_preedit(*ctx), *cmds) is ExitCommand),
        out.load_requested == (spec_command(spec_displayed_preedit(*ctx), *cmds) is LoadCommand),
        out.cancel_composition == (spec_command(spec_displayed_preedit(*ctx), *cmds) is CopyCommand
            || spec_command(spec_displayed_preedit(*ctx), *cmds) is LoadCommand),
        spec_command(spec_displayed_preedit(*ctx), *cmds) is CopyCommand ==> out.clipboard_write
            is Some && out.clipboard_write->Some_0@ == final(ui).output@,
        !(spec_command(spec_displayed_preedit(*ctx), *cmds) is CopyCommand)
            ==> out.clipboard_write is None,
{
    // Fallback default behavior for a key the engine declined.
    if !consumed && (key.modifiers == 0 || key.modifiers == MOD_SHIFT) {
        let code = key.key_code;
        if (XK_LOWER_A <= code && code <= XK_LOWER_Z) || (XK_UPPER_A <= code && code <= XK_UPPER_Z)
            || (XK_0 <= code && code <= XK_9) {
            let c = key_char(code);
            push_char(&mut ui.output, c);
        } else if code == XK_BACKSPACE {
            if ctx.preedit.is_none() {
                let _ = pop_char(&mut ui.output);
            }
        } else if code == XK_RETURN {
            push_char(&mut ui.output, '\n');
        } else if code == XK_SPACE {
            let preedit_empty = match &ctx.preedit {
                None => true,
                Some(s) => s.as_str().is_empty(),
            };
            if preedit_empty {
                push_char(&mut ui.output, ' ');
            }
        }
    }

    // Copy the composition context into the UI state.
    let mut cands: Vec<Candidate> = Vec::new();
    let mut i: usize = 0;
    while i < ctx.candidates.len()
        invariant
            i <= ctx.candidates@.len(),
            cands@.len() == i as nat,
            forall|j: int|
                0 <= j < i as int ==> {
                    &&& (#[trigger] cands@[j]).text@ == ctx.candidates@[j].text@
                    &&& cands@[j].comment@ == ctx.candidates@[j].comment@
                    &&& cands@[j].highlighted == (j == ctx.highlighted_index as int)
                },
        decreases ctx.candidates@.len() - i,
    {
        let mc = &ctx.candidates[i];
        let highlighted = i == ctx.highlighted_index;
        cands.push(Candidate { text: mc.text.clone(), comment: mc.comment.clone(), highlighted });
        i = i + 1;
    }
    ui.candidates = cands;

    // Consume the pending commit: its text joins the output exactly once.
    match commit {
        Some(c) => {
            ui.output.append(c.as_str());
        },
        None => {},
    }

    // Sentinel check on the displayed preedit.
    let displayed: String = match &ctx.preedit {
        None => String::new(),
        Some(s) => s.clone(),
    };
    let cmd = command_of(&displayed, cmds);
    ui.preedit = displayed;

    let mut outcome = IterationOutcome {
        terminate: false,
        clipboard_write: None,
        load_requested: false,
        cancel_composition: false,
    };
    match cmd {
        CommandKind::ExitCommand => {
            outcome.terminate = true;
        },
        CommandKind::CopyCommand => {
            outcome.clipboard_write = Some(ui.output.clone());
            clear_string(&mut ui.preedit);
            outcome.cancel_composition = true;
        },
        CommandKind::LoadCommand => {
            outcome.load_requested = true;
            clear_string(&mut ui.preedit);
            outcome.cancel_composition = true;
        },
        CommandKind::NoCommand => {},
    }
    outcome
}

/// Replaces the output with the clipboard text fetched for a matched
/// load sentinel; nothing else moves.
pub fn apply_loaded_clipboard(ui: &mut UiData, text: String)
    ensures
        final(ui).output@ == text@,
        final(ui).preedit@ == old(ui).preedit@,
        final(ui).candidates@ == old(ui).candidates@,
        final(ui).log@ == old(ui).log@,
        final(ui).select_labels == old(ui).select_labels,
{
    ui.output = text;
}

/// The loop's next state: it reaches Terminating exactly when an
/// iteration's outcome asks for termination, and never leaves it.
pub open spec fn spec_next_loop_state(s: LoopState, terminate: bool) -> LoopState {
    if s is Terminating || terminate {
        LoopState::Terminating
    } else {
        LoopState::Running
    }
}

/// Advances the loop's state after one iteration.
pub fn next_loop_state(s: LoopState, terminate: bool) -> (next: LoopState)
    ensures
        next == spec_next_loop_state(s, terminate),
{
    if terminate {
        LoopState::Terminating
    } else {
        s
    }
}

/// Law: the loop reaches Terminating exactly when an iteration asks for
/// termination, and there is no path out of Terminating.
pub proof fn lemma_termination_is_absorbing(s: LoopState, terminate: bool)
    ensures
        spec_next_loop_state(s, terminate) is Terminating <==> (s is Terminating || terminate),
        spec_next_loop_state(LoopState::Terminating, terminate) == LoopState::Terminating,
{
}

/// Law: one iteration appends a produced commit to the output exactly
/// once — the output with the commit equals the output without it,
/// extended by the commit's text and nothing else — and an iteration
/// without a commit appends nothing on the commit's account.
pub proof fn lemma_commit_appended_exactly_once(out: Seq<char>, c: String)
    ensures
        spec_output_after_commit(out, Some(c)) == out + c@,
        spec_output_after_commit(out, None) == out,
        spec_output_after_commit(out, Some(c)).len() == out.len() + c@.len(),
{
}

/// Law: across two consecutive iterations whose keys the engine
/// consumed, each commit joins the output exactly once and in order;
/// an iteration without a commit adds nothing, so a commit consumed in
/// one iteration can never surface again in the next.
pub proof fn lemma_commit_not_duplicated_across_iterations(
    out: Seq<char>,
    key1: KeyEvent,
    ctx1: EngineContext,
    c1: String,
    key2: KeyEvent,
    ctx2: EngineContext,
    commit2: Option<String>,
)
    ensures
        spec_iteration_output(
            spec_iteration_output(out, key1, true, ctx1, Some(c1)),
            key2,
            true,
            ctx2,
            commit2,
        ) == match commit2 {
            None => out + c1@,
            Some(c2) => out + c1@ + c2@,
        },
{
}

/// Law: the sentinel decision is a single value, so at most one of
/// exit, copy and load acts in one iteration; a matched copy or load
/// sentinel clears the preedit, and any other decision leaves the
/// displayed preedit standing. (That a matched copy sentinel asks for
/// exactly one clipboard write holding the full output is stated by
/// `process_engine_update`'s contract.)
pub proof fn lemma_one_sentinel_acts_per_iteration(ctx: EngineContext, cmds: CommandSet)
    ensures
        spec_command(spec_displayed_preedit(ctx), cmds) is CopyCommand || spec_command(
            spec_displayed_preedit(ctx),
            cmds,
        ) is LoadCommand ==> spec_preedit_after(ctx, cmds) == Seq::<char>::empty(),
        spec_command(spec_displayed_preedit(ctx), cmds) is ExitCommand || spec_command(
            spec_displayed_preedit(ctx),
            cmds,
        ) is NoCommand ==> spec_preedit_after(ctx, cmds) == spec_displayed_preedit(ctx),
{
}

} // verus!
