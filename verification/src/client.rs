//! The Herdr command-line client: which binary it runs, the command lines it
//! builds, and how a failed command's output becomes an error.

use vstd::prelude::*;
use vstd::string::StringExecFns;
use vstd::utf8::{valid_utf8, decode_utf8};
use crate::error::HerdrCommandError;
use crate::json::strs;

verus! {

/// A command that was run: the binary and its arguments.
#[derive(Clone, Debug, Eq, PartialEq)]
pub struct CommandLine {
    binary: String,
    args: Vec<String>,
}

/// The text of a command line: the binary, then each argument after a space.
pub open spec fn command_text(binary: Seq<char>, args: Seq<Seq<char>>) -> Seq<char>
    decreases args.len(),
{
    if args.len() == 0 {
        binary
    } else {
        command_text(binary, args.drop_last()) + " "@ + args.last()
    }
}

impl CommandLine {
    /// The binary this command runs.
    pub closed spec fn spec_binary(&self) -> Seq<char> {
        self.binary@
    }

    /// The arguments of this command, in order.
    pub closed spec fn spec_args(&self) -> Seq<Seq<char>> {
        strs(self.args@)
    }

    /// The command that runs `binary` with `args`.
    pub fn new(binary: &str, args: Vec<String>) -> (c: Self)
        ensures
            c.spec_binary() == binary@,
            c.spec_args() == strs(args@),
    {
        CommandLine { binary: binary.to_owned(), args }
    }

    /// The binary this command runs.
    pub fn binary(&self) -> (b: &str)
        ensures
            b@ == self.spec_binary(),
    {
        self.binary.as_str()
    }

    /// The arguments of this command.
    pub fn args(&self) -> (a: &[String])
        ensures
            strs(a@) == self.spec_args(),
    {
        self.args.as_slice()
    }

    /// The text of this command, as it is displayed.
    pub fn to_text(&self) -> (t: String)
        ensures
            t@ == command_text(self.spec_binary(), self.spec_args()),
    {
        let mut t = self.binary.clone();
        let n = self.args.len();
        let mut i: usize = 0;
        while i < n
            invariant
                n == self.args@.len(),
                i <= n,
                t@ == command_text(self.binary@, strs(self.args@).subrange(0, i as int)),
            decreases n - i,
        {
            let ghost sub = strs(self.args@).subrange(0, i + 1);
            assert(sub.drop_last() =~= strs(self.args@).subrange(0, i as int));
            t.append(" ");
            t.append(self.args[i].as_str());
            i += 1;
        }
        assert(strs(self.args@).subrange(0, n as int) =~= strs(self.args@));
        t
    }
}

/// `c` runs `binary` with `args`.
pub open spec fn runs(c: CommandLine, binary: Seq<char>, args: Seq<Seq<char>>) -> bool {
    c.spec_binary() == binary && c.spec_args() == args
}

/// The Herdr command-line client: the binary it runs.
#[derive(Clone, Debug)]
pub struct HerdrClient {
    binary: String,
}

impl HerdrClient {
    /// The binary this client runs.
    pub closed spec fn spec_binary(&self) -> Seq<char> {
        self.binary@
    }

    /// A client that runs `binary`.
    pub fn with_binary(binary: String) -> (c: Self)
        ensures
            c.spec_binary() == binary@,
    {
        HerdrClient { binary }
    }

    /// The client the environment selects: the value of `HERDR_BIN_PATH`
    /// when it is set, `herdr` otherwise.
    pub fn from_bin_path_var(value: Option<String>) -> (c: Self)
        ensures
            c.spec_binary() == (match value {
                Some(v) => v@,
                None => "herdr"@,
            }),
    {
        match value {
            Some(v) => HerdrClient::with_binary(v),
            None => HerdrClient::with_binary("herdr".to_owned()),
        }
    }

    /// The binary this client runs.
    pub fn binary(&self) -> (b: &str)
        ensures
            b@ == self.spec_binary(),
    {
        self.binary.as_str()
    }

    /// The command that runs this client's binary with `args`.
    pub fn command(&self, args: Vec<String>) -> (c: CommandLine)
        ensures
            c.spec_binary() == self.spec_binary(),
            c.spec_args() == strs(args@),
    {
        CommandLine::new(self.binary.as_str(), args)
    }
}

/// What `String::from_utf8_lossy` makes of `bytes`.
pub uninterp spec fn spec_utf8_lossy(bytes: Seq<u8>) -> Seq<char>;

/// Calls `String::from_utf8_lossy`. Claims that the result is a function of
/// the bytes, and that valid UTF-8 decodes to its own characters; how
/// invalid sequences are replaced is left unsaid.
#[verifier::external_body]
fn utf8_lossy(bytes: &[u8]) -> (s: String)
    ensures
        s@ == spec_utf8_lossy(bytes@),
        valid_utf8(bytes@) ==> s@ == decode_utf8(bytes@),
{
    String::from_utf8_lossy(bytes).into_owned()
}

/// Whether `c` is white space: the Unicode `White_Space` property, which
/// `char::is_whitespace` tests.
pub open spec fn is_white_space(c: char) -> bool {
    ||| '\u{9}' <= c <= '\u{d}'
    ||| c == ' '
    ||| c == '\u{85}'
    ||| c == '\u{a0}'
    ||| c == '\u{1680}'
    ||| '\u{2000}' <= c <= '\u{200a}'
    ||| c == '\u{2028}'
    ||| c == '\u{2029}'
    ||| c == '\u{202f}'
    ||| c == '\u{205f}'
    ||| c == '\u{3000}'
}

/// Whether every character of `s` is white space.
pub open spec fn all_white_space(s: Seq<char>) -> bool {
    forall|k: int| 0 <= k < s.len() ==> is_white_space(#[trigger] s[k])
}

/// `t` is `s` without its leading and trailing white space, as `str::trim`
/// leaves it.
pub open spec fn trimmed(s: Seq<char>, t: Seq<char>) -> bool {
    exists|i: int, j: int|
        #![trigger s.subrange(i, j)]
        0 <= i <= j <= s.len() && t == s.subrange(i, j) && (forall|k: int|
            0 <= k < i ==> is_white_space(#[trigger] s[k])) && (forall|k: int|
            j <= k < s.len() ==> is_white_space(#[trigger] s[k])) && (t.len() > 0 ==> !is_white_space(t[0])
            && !is_white_space(t[t.len() - 1]))
}

/// Whether `c` is white space.
fn white_space(c: char) -> (b: bool)
    ensures
        b == is_white_space(c),
{
    let v = c as u32;
    (0x9 <= v && v <= 0xd) || v == 0x20 || v == 0x85 || v == 0xa0 || v == 0x1680 || (0x2000 <= v && v
        <= 0x200a) || v == 0x2028 || v == 0x2029 || v == 0x202f || v == 0x205f || v == 0x3000
}

/// `s` without its leading and trailing white space, as `str::trim` leaves it.
fn trim(s: &str) -> (t: String)
    ensures
        trimmed(s@, t@),
{
    let n = s.unicode_len();
    let mut i: usize = 0;
    while i < n && white_space(s.get_char(i))
        invariant
            n == s@.len(),
            i <= n,
            forall|k: int| 0 <= k < i ==> is_white_space(#[trigger] s@[k]),
        decreases n - i,
    {
        i += 1;
    }
    let mut j: usize = n;
    while j > i && white_space(s.get_char(j - 1))
        invariant
            n == s@.len(),
            i <= j <= n,
            forall|k: int| j <= k < n ==> is_white_space(#[trigger] s@[k]),
            i < n ==> !is_white_space(s@[i as int]),
        decreases j - i,
    {
        j -= 1;
    }
    let t = s.substring_char(i, j);
    let r = t.to_owned();
    proof {
        let u = s@.subrange(i as int, j as int);
        if u.len() > 0 {
            assert(u[0] == s@[i as int]);
            assert(u[u.len() - 1] == s@[j - 1]);
        }
        assert(r@ == s@.subrange(i as int, j as int));
    }
    r
}

/// What is left of text once trimmed is empty exactly when the text is all
/// white space.
proof fn lemma_trimmed_empty(s: Seq<char>, t: Seq<char>)
    requires
        trimmed(s, t),
    ensures
        t.len() == 0 <==> all_white_space(s),
{
    let (i, j) = choose|i: int, j: int|
        #![trigger s.subrange(i, j)]
        0 <= i <= j <= s.len() && t == s.subrange(i, j) && (forall|k: int|
            0 <= k < i ==> is_white_space(#[trigger] s[k])) && (forall|k: int|
            j <= k < s.len() ==> is_white_space(#[trigger] s[k])) && (t.len() > 0 ==> !is_white_space(t[0])
            && !is_white_space(t[t.len() - 1]));
    if t.len() == 0 {
        assert forall|k: int| 0 <= k < s.len() implies is_white_space(#[trigger] s[k]) by {
            if k >= i {
                assert(k >= j);
            }
        }
    } else {
        assert(t[0] == s[i]);
    }
}

/// `message` is the message of a command that failed with `stdout` and
/// `stderr`: standard error trimmed, or standard output trimmed when
/// standard error holds nothing but white space.
pub open spec fn failure_message(stdout: Seq<u8>, stderr: Seq<u8>, message: Seq<char>) -> bool {
    if all_white_space(spec_utf8_lossy(stderr)) {
        trimmed(spec_utf8_lossy(stdout), message)
    } else {
        trimmed(spec_utf8_lossy(stderr), message)
    }
}

/// The error a failed command reports. `body` is the error that standard
/// output parses to as a JSON error body, if it does; it wins. Otherwise the
/// error is `command_failed` with the output's text as its message.
pub fn parse_command_error(stdout: &[u8], stderr: &[u8], body: Option<HerdrCommandError>) -> (e: HerdrCommandError)
    ensures
        body is Some ==> e == body->0,
        body is None ==> e.code@ == "command_failed"@ && failure_message(stdout@, stderr@, e.message@),
{
    if let Some(error) = body {
        return error;
    }
    let err_text = utf8_lossy(stderr);
    let err = trim(err_text.as_str());
    proof {
        lemma_trimmed_empty(err_text@, err@);
    }
    let message = if err.as_str().is_empty() {
        trim(utf8_lossy(stdout).as_str())
    } else {
        err
    };
    HerdrCommandError { code: "command_failed".to_owned(), message }
}

} // verus!
