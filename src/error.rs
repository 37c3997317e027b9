//! Errors of the library: a kind, and a chain of short human-readable contexts
//! from the root cause outwards.
use vstd::prelude::*;
use crate::exit::ProcessExit;

verus! {

/// What went wrong, at the root of an error chain.
#[derive(Clone, Copy, Debug, PartialEq, Eq, Structural)]
pub enum ErrorKind {
    /// A child process could not be started.
    Spawn,
    /// A file, directory or socket operation failed.
    Io,
    /// An input was refused: a bad channel name, a missing source file.
    Validation,
    /// The emulator exited before every requested channel connected.
    ChannelNegotiation,
    /// A child process finished without success.
    ProcessExit(ProcessExit),
    /// Removing a temporary directory failed.
    Cleanup,
}

/// An error: its kind and the chain of contexts, innermost first.
#[derive(Debug)]
pub struct Error {
    pub kind: ErrorKind,
    pub context: Vec<String>,
}

/// The views of a sequence of strings.
pub open spec fn views(v: Seq<String>) -> Seq<Seq<char>> {
    v.map_values(|s: String| s@)
}

/// The rendered chain: the outermost context first, each inner one on a line
/// of its own after `Caused by: `.
pub open spec fn rendered_chain(ctx: Seq<Seq<char>>) -> Seq<char>
    decreases ctx.len(),
{
    if ctx.len() == 0 {
        Seq::empty()
    } else if ctx.len() == 1 {
        "Error: "@ + ctx[0]
    } else {
        rendered_chain(ctx.subrange(1, ctx.len() as int)) + "\nCaused by: "@ + ctx[0]
    }
}

impl Error {
    /// An error of `kind` whose only context is `message`.
    pub fn new(kind: ErrorKind, message: &str) -> (r: Error)
        ensures
            r.kind == kind,
            views(r.context@) == seq![message@],
    {
        let mut context = Vec::new();
        context.push(message.to_owned());
        proof {
            assert(views(context@) =~= seq![message@]);
        }
        Error { kind, context }
    }

    /// Wraps the error in one more context, keeping its kind.
    pub fn chain_err(self, message: &str) -> (r: Error)
        ensures
            r.kind == self.kind,
            views(r.context@) == views(self.context@).push(message@),
    {
        let mut context = self.context;
        let ghost before = context@;
        context.push(message.to_owned());
        proof {
            assert(views(context@) =~= views(before).push(message@));
        }
        Error { kind: self.kind, context }
    }

    /// The whole chain as text, outermost context first.
    pub fn render(&self) -> (r: String)
        ensures
            r@ == rendered_chain(views(self.context@)),
    {
        let n = self.context.len();
        let mut out = String::new();
        let mut j: usize = n;
        while j > 0
            invariant
                n == self.context@.len(),
                j <= n,
                out@ == rendered_chain(views(self.context@).subrange(j as int, n as int)),
            decreases j,
        {
            let ghost ctx = views(self.context@);
            let ghost next = ctx.subrange(j - 1, n as int);
            assert(next.subrange(1, next.len() as int) =~= ctx.subrange(j as int, n as int));
            assert(next[0] == self.context@[j - 1]@);
            if j == n {
                out = "Error: ".to_owned();
            } else {
                out.append("\nCaused by: ");
            }
            out.append(self.context[j - 1].as_str());
            j = j - 1;
        }
        proof {
            assert(views(self.context@).subrange(0, n as int) =~= views(self.context@));
        }
        out
    }
}

} // verus!
