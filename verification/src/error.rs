//! The error taxonomy: every way a patch invocation can fail, and the
//! message each failure displays.

use vstd::prelude::*;
use vstd::string::StringExecFns;

verus! {

/// Every failure of a patch invocation.  The first failure aborts the whole
/// operation; there is no recovery anywhere in the core.
#[derive(Debug, PartialEq, Eq)]
pub enum Error {
    /// The operating system could not start a subprocess.
    SpawnChildProcess { command: String, os_error: String },
    /// A subprocess exited non-zero or was terminated by a signal.
    CommandNotSuccess { command: String, code: Option<i32>, stderr: String },
    /// A resolved path failed a semantic validation.
    Nix { message: String },
    /// The toolchain root is missing `bin` or `lib`, or is not a directory.
    InvalidToolchainPath { path: String },
    /// A filesystem operation while enumerating a directory failed.
    Io { actions: String, os_error: String },
}

/// The shape of an error, stated over character sequences, so that contracts
/// can describe which error a function returns without building one.
pub ghost enum ErrShape {
    Spawn { command: Seq<char>, os_error: Seq<char> },
    NotSuccess { command: Seq<char>, code: Option<i32>, stderr: Seq<char> },
    Nix { message: Seq<char> },
    InvalidToolchain { path: Seq<char> },
    Io { actions: Seq<char>, os_error: Seq<char> },
}

/// Whether the error value `e` has exactly the shape `s`.
pub open spec fn error_matches(e: Error, s: ErrShape) -> bool {
    match e {
        Error::SpawnChildProcess { command, os_error } => s matches ErrShape::Spawn {
            command: c,
            os_error: o,
        } && command@ == c && os_error@ == o,
        Error::CommandNotSuccess { command, code, stderr } => s matches ErrShape::NotSuccess {
            command: c,
            code: k,
            stderr: t,
        } && command@ == c && code == k && stderr@ == t,
        Error::Nix { message } => s matches ErrShape::Nix { message: m } && message@ == m,
        Error::InvalidToolchainPath { path } => s matches ErrShape::InvalidToolchain {
            path: p,
        } && path@ == p,
        Error::Io { actions, os_error } => s matches ErrShape::Io {
            actions: a,
            os_error: o,
        } && actions@ == a && os_error@ == o,
    }
}

/// The digit character for `d`.
pub open spec fn dec_digit(d: nat) -> char {
    if d == 0 {
        '0'
    } else if d == 1 {
        '1'
    } else if d == 2 {
        '2'
    } else if d == 3 {
        '3'
    } else if d == 4 {
        '4'
    } else if d == 5 {
        '5'
    } else if d == 6 {
        '6'
    } else if d == 7 {
        '7'
    } else if d == 8 {
        '8'
    } else {
        '9'
    }
}

/// The decimal representation of `n`, most significant digit first.
pub open spec fn dec_rep(n: nat) -> Seq<char>
    decreases n,
{
    if n < 10 {
        seq![dec_digit(n)]
    } else {
        dec_rep(n / 10) + seq![dec_digit(n % 10)]
    }
}

/// The decimal representation of a possibly negative number.
pub open spec fn int_dec(n: int) -> Seq<char> {
    if n < 0 {
        seq!['-'] + dec_rep((-n) as nat)
    } else {
        dec_rep(n as nat)
    }
}

/// How an exit status is displayed: its code, or a signal indicator.
pub open spec fn fmt_code_spec(code: Option<i32>) -> Seq<char> {
    match code {
        Some(c) => "exited with status code: "@ + int_dec(c as int),
        None => "terminated by signal"@,
    }
}

fn dec_digit_str(d: u64) -> (r: &'static str)
    requires
        d < 10,
    ensures
        r@ == seq![dec_digit(d as nat)],
{
    if d == 0 {
        proof {
            reveal_strlit("0");
            assert("0"@ =~= seq![dec_digit(d as nat)]);
        }
        "0"
    } else if d == 1 {
        proof {
            reveal_strlit("1");
            assert("1"@ =~= seq![dec_digit(d as nat)]);
        }
        "1"
    } else if d == 2 {
        proof {
            reveal_strlit("2");
            assert("2"@ =~= seq![dec_digit(d as nat)]);
        }
        "2"
    } else if d == 3 {
        proof {
            reveal_strlit("3");
            assert("3"@ =~= seq![dec_digit(d as nat)]);
        }
        "3"
    } else if d == 4 {
        proof {
            reveal_strlit("4");
            assert("4"@ =~= seq![dec_digit(d as nat)]);
        }
        "4"
    } else if d == 5 {
        proof {
            reveal_strlit("5");
            assert("5"@ =~= seq![dec_digit(d as nat)]);
        }
        "5"
    } else if d == 6 {
        proof {
            reveal_strlit("6");
            assert("6"@ =~= seq![dec_digit(d as nat)]);
        }
        "6"
    } else if d == 7 {
        proof {
            reveal_strlit("7");
            assert("7"@ =~= seq![dec_digit(d as nat)]);
        }
        "7"
    } else if d == 8 {
        proof {
            reveal_strlit("8");
            assert("8"@ =~= seq![dec_digit(d as nat)]);
        }
        "8"
    } else {
        proof {
            reveal_strlit("9");
            assert("9"@ =~= seq![dec_digit(d as nat)]);
        }
        "9"
    }
}

/// Appends the decimal representation of `n` to `s`.
fn push_dec(s: &mut String, n: u64)
    ensures
        final(s)@ == old(s)@ + dec_rep(n as nat),
    decreases n,
{
    if n < 10 {
        s.append(dec_digit_str(n));
    } else {
        push_dec(s, n / 10);
        s.append(dec_digit_str(n % 10));
        proof {
            assert(s@ =~= old(s)@ + dec_rep(n as nat));
        }
    }
}

/// Displays an exit status: the code when there is one, otherwise that the
/// process was terminated by a signal.
pub fn fmt_code(code: Option<i32>) -> (r: String)
    ensures
        r@ == fmt_code_spec(code),
{
    match code {
        Some(c) => {
            let mut s = "exited with status code: ".to_owned();
            if c < 0 {
                s.append("-");
                let m: u64 = (-(c as i64)) as u64;
                push_dec(&mut s, m);
                proof {
                    reveal_strlit("-");
                    assert("-"@ =~= seq!['-']);
                    assert(s@ =~= fmt_code_spec(code));
                }
            } else {
                push_dec(&mut s, c as u64);
            }
            s
        },
        None => "terminated by signal".to_owned(),
    }
}

/// The display text of each error.
pub open spec fn message_spec(e: Error) -> Seq<char> {
    match e {
        Error::SpawnChildProcess { command, os_error } => "Could not spawn command `"@ + command@
            + "`: "@ + os_error@,
        Error::CommandNotSuccess { command, code, stderr } => "Command "@ + fmt_code_spec(code)
            + "\n"@ + command@ + "\n"@ + stderr@,
        Error::Nix { message } => message@,
        Error::InvalidToolchainPath { path } => "Invalid toolchain path "@ + path@,
        Error::Io { actions, os_error } => "Failed to "@ + actions@ + ": "@ + os_error@,
    }
}

impl Error {
    /// The text a caller shows for this error.
    pub fn message(&self) -> (r: String)
        ensures
            r@ == message_spec(*self),
    {
        match self {
            Error::SpawnChildProcess { command, os_error } => {
                let mut s = "Could not spawn command `".to_owned();
                s.append(command.as_str());
                s.append("`: ");
                s.append(os_error.as_str());
                proof {
                    assert(s@ =~= message_spec(*self));
                }
                s
            },
            Error::CommandNotSuccess { command, code, stderr } => {
                let mut s = "Command ".to_owned();
                let fc = fmt_code(*code);
                s.append(fc.as_str());
                s.append("\n");
                s.append(command.as_str());
                s.append("\n");
                s.append(stderr.as_str());
                proof {
                    assert(s@ =~= message_spec(*self));
                }
                s
            },
            Error::Nix { message } => message.as_str().to_owned(),
            Error::InvalidToolchainPath { path } => {
                let mut s = "Invalid toolchain path ".to_owned();
                s.append(path.as_str());
                proof {
                    assert(s@ =~= message_spec(*self));
                }
                s
            },
            Error::Io { actions, os_error } => {
                let mut s = "Failed to ".to_owned();
                s.append(actions.as_str());
                s.append(": ");
                s.append(os_error.as_str());
                proof {
                    assert(s@ =~= message_spec(*self));
                }
                s
            },
        }
    }
}

} // verus!
