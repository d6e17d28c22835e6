//! The errors of the library and the text that each of them reads as.

use crate::text::texts;
use vstd::prelude::*;
use vstd::string::*;

verus! {

/// Why a detection failed.
#[derive(Debug)]
pub enum Error {
    /// The `git` command ran and ended with a status other than zero.
    GitCommandFailed {
        /// What the command wrote to its standard error, without the white
        /// space at its ends.
        stderr: String,
        /// The arguments that the command was run with.
        args: Vec<String>,
    },
    /// The command could not be started. Holds the system's description of
    /// the failure.
    CommandCannotRun(String),
    /// The remote URL is no absolute URL, or has no host.
    BrokenUrl {
        /// The URL: as it was given where it could not be parsed, as the
        /// parser writes it out where it has no host.
        url: String,
        /// What is wrong with it.
        msg: String,
    },
    /// The URL is well formed, but names no hosting service that the library
    /// knows.
    CannotDetect {
        /// Why no service was found.
        reason: String,
    },
}

/// An `Error` with its strings as sequences of characters.
pub ghost enum ErrorView {
    GitCommandFailed { stderr: Seq<char>, args: Seq<Seq<char>> },
    CommandCannotRun(Seq<char>),
    BrokenUrl { url: Seq<char>, msg: Seq<char> },
    CannotDetect { reason: Seq<char> },
}

/// Each of `args` between single quotes and after a space, one after the
/// other.
pub open spec fn quoted(args: Seq<Seq<char>>) -> Seq<char>
    decreases args.len(),
{
    if args.len() == 0 {
        Seq::empty()
    } else {
        quoted(args.drop_last()) + " '"@ + args.last() + "'"@
    }
}

impl ErrorView {
    /// The sentence that describes the error.
    pub open spec fn message(self) -> Seq<char> {
        match self {
            ErrorView::GitCommandFailed { stderr, args } => {
                let head = if stderr.len() == 0 {
                    "`git"@
                } else {
                    stderr + ": `git"@
                };
                head + quoted(args) + "` exited with non-zero status"@
            },
            ErrorView::CommandCannotRun(cause) => cause + ": cannot run command"@,
            ErrorView::BrokenUrl { url, msg } => "Git URL "@ + url + " is broken: "@ + msg,
            ErrorView::CannotDetect { reason } => "Cannot detect service: "@ + reason,
        }
    }
}

impl View for Error {
    type V = ErrorView;

    open spec fn view(&self) -> ErrorView {
        match *self {
            Error::GitCommandFailed { stderr, args } => ErrorView::GitCommandFailed {
                stderr: stderr@,
                args: texts(args@),
            },
            Error::CommandCannotRun(cause) => ErrorView::CommandCannotRun(cause@),
            Error::BrokenUrl { url, msg } => ErrorView::BrokenUrl { url: url@, msg: msg@ },
            Error::CannotDetect { reason } => ErrorView::CannotDetect { reason: reason@ },
        }
    }
}

impl Error {
    /// The sentence that describes the error, with what it carries written
    /// out in it.
    pub fn to_string(&self) -> (r: String)
        ensures
            r@ == self@.message(),
    {
        match self {
            Error::GitCommandFailed { stderr, args } => {
                let mut s = String::from_str(stderr.as_str());
                if stderr.as_str().unicode_len() == 0 {
                    s.append("`git");
                    assert(s@ =~= "`git"@);
                } else {
                    s.append(": `git");
                }
                let ghost head = s@;
                let n: usize = args.len();
                let mut i: usize = 0;
                assert(texts(args@).take(0) =~= Seq::<Seq<char>>::empty());
                assert(s@ =~= head + quoted(texts(args@).take(0)));
                while i < n
                    invariant
                        n == args.len(),
                        i <= n,
                        s@ == head + quoted(texts(args@).take(i as int)),
                    decreases n - i,
                {
                    s.append(" '");
                    s.append(args[i].as_str());
                    s.append("'");
                    proof {
                        let done = texts(args@).take(i + 1);
                        assert(done.drop_last() =~= texts(args@).take(i as int));
                        assert(done.last() == args[i as int]@);
                        assert(s@ =~= head + quoted(done));
                    }
                    i += 1;
                }
                assert(texts(args@).take(n as int) =~= texts(args@));
                s.append("` exited with non-zero status");
                s
            },
            Error::CommandCannotRun(cause) => {
                let mut s = String::from_str(cause.as_str());
                s.append(": cannot run command");
                s
            },
            Error::BrokenUrl { url, msg } => {
                let mut s = String::from_str("Git URL ");
                s.append(url.as_str());
                s.append(" is broken: ");
                s.append(msg.as_str());
                s
            },
            Error::CannotDetect { reason } => {
                let mut s = String::from_str("Cannot detect service: ");
                s.append(reason.as_str());
                s
            },
        }
    }
}

} // verus!
