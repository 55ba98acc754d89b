//! The effects that the host carries out for the resolver, in the order in
//! which they are handed over.

use vstd::prelude::*;
use vstd::string::StringExecFns;

verus! {

/// The exit status of a dismissed run.
pub const EXIT_SUCCESS: i32 = 0;

/// The program that runs the confirmed command line.
pub const SHELL: &'static str = "sh";

/// The shell's flag that announces a command line as the next argument.
pub const SHELL_COMMAND_FLAG: &'static str = "-c";

/// A program to start, with its arguments.
#[derive(Debug, PartialEq, Eq)]
pub struct Invocation {
    pub program: String,
    pub args: Vec<String>,
}

/// An `Invocation` as mathematical values.
pub struct InvocationView {
    pub program: Seq<char>,
    pub args: Seq<Seq<char>>,
}

impl View for Invocation {
    type V = InvocationView;

    open spec fn view(&self) -> InvocationView {
        InvocationView {
            program: self.program@,
            args: self.args@.map_values(|arg: String| arg@),
        }
    }
}

/// The invocation that runs a command line through the shell: the shell,
/// its command flag, and the command line as one argument.
pub open spec fn shell_invocation(command: Seq<char>) -> InvocationView {
    InvocationView { program: SHELL@, args: seq![SHELL_COMMAND_FLAG@, command] }
}

impl Invocation {
    /// Builds the invocation that runs `command` through the shell.
    pub fn shell(command: &str) -> (r: Invocation)
        ensures
            r@ == shell_invocation(command@),
    {
        let mut args: Vec<String> = Vec::new();
        args.push(String::from_str(SHELL_COMMAND_FLAG));
        args.push(String::from_str(command));
        let r = Invocation { program: String::from_str(SHELL), args };
        assert(r@.args =~= seq![SHELL_COMMAND_FLAG@, command@]);
        r
    }
}

/// One thing for the host to do.
#[derive(Debug, PartialEq, Eq)]
pub enum Effect {
    /// Hide and release the surface.
    CloseSurface,
    /// Replace the process image by the given program.
    ReplaceProcess(Invocation),
    /// End the process with the given status.
    Exit { code: i32 },
}

/// An `Effect` as mathematical values.
pub enum EffectView {
    CloseSurface,
    ReplaceProcess(InvocationView),
    Exit { code: i32 },
}

impl View for Effect {
    type V = EffectView;

    open spec fn view(&self) -> EffectView {
        match self {
            Effect::CloseSurface => EffectView::CloseSurface,
            Effect::ReplaceProcess(invocation) => EffectView::ReplaceProcess(invocation@),
            Effect::Exit { code } => EffectView::Exit { code: *code },
        }
    }
}

/// The views of a list of effects, in the same order.
pub open spec fn effect_views(effects: Seq<Effect>) -> Seq<EffectView> {
    effects.map_values(|effect: Effect| effect@)
}

} // verus!
