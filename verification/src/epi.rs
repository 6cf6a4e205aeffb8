//! External program interface: recipes of problems and solvers that run in an external
//! process, the keys under which their factories are cached, and the line framing of the
//! JSON messages exchanged with such a process.
use vstd::prelude::*;
use vstd::string::StringExecFns;
use vstd::string::StrSliceExecFns;
use sha2::Digest;
use crate::text::{decimal, u64_to_string, views};
use crate::error::ErrorKind;
use crate::trial::IdGen;

verus! {

/// The SHA-256 digest of `data`.
pub uninterp spec fn sha256(data: Seq<u8>) -> Seq<u8>;

/// Calls `sha2::Sha256::digest`: the result is the SHA-256 digest of `data`, which is
/// a function of `data` alone, and, as `Sha256`'s output size is 32 bytes, 32 bytes long.
#[verifier::external_body]
fn sha256_digest(data: &[u8]) -> (res: Vec<u8>)
    ensures
        res@ == sha256(data@),
        res@.len() == 32,
{
    sha2::Sha256::digest(data).to_vec()
}

/// The concatenation of the UTF-8 encodings of the given strings.
pub open spec fn utf8_concat(parts: Seq<Seq<char>>) -> Seq<u8>
    decreases parts.len(),
{
    if parts.len() == 0 {
        Seq::empty()
    } else {
        utf8_concat(parts.drop_last()) + vstd::utf8::encode_utf8(parts.last())
    }
}

fn append_bytes(buf: &mut Vec<u8>, bytes: &[u8])
    ensures
        final(buf)@ == old(buf)@ + bytes@,
{
    let mut i: usize = 0;
    while i < bytes.len()
        invariant
            i <= bytes@.len(),
            buf@ == old(buf)@ + bytes@.take(i as int),
        decreases bytes.len() - i,
    {
        buf.push(bytes[i]);
        assert(bytes@.take(i + 1) == bytes@.take(i as int).push(bytes@[i as int]));
        i = i + 1;
    }
    assert(bytes@.take(bytes@.len() as int) == bytes@);
}

fn append_args(buf: &mut Vec<u8>, args: &Vec<String>)
    ensures
        final(buf)@ == old(buf)@ + utf8_concat(views(args@)),
{
    let mut i: usize = 0;
    while i < args.len()
        invariant
            i <= args@.len(),
            buf@ == old(buf)@ + utf8_concat(views(args@).take(i as int)),
        decreases args.len() - i,
    {
        let bytes = args[i].as_str().as_bytes();
        append_bytes(buf, bytes);
        proof {
            let prev = views(args@).take(i as int);
            let next = views(args@).take(i + 1);
            assert(next.drop_last() == prev);
            assert(next.last() == args@[i as int]@);
        }
        i = i + 1;
    }
    assert(views(args@).take(args@.len() as int) == views(args@));
}

/// Recipe for the problem implemented by an external program.
#[derive(Debug)]
pub struct ExternalProgramProblemRecipe {
    /// The path of the external program.
    pub path: String,
    /// The command line arguments that are passed to the program.
    pub args: Vec<String>,
}

impl ExternalProgramProblemRecipe {
    /// The key under which the factory of this recipe is cached: the SHA-256 digest of
    /// the program path followed by the arguments.
    pub fn cache_key(&self) -> (res: Vec<u8>)
        ensures
            res@ == sha256(vstd::utf8::encode_utf8(self.path@) + utf8_concat(views(self.args@))),
            res@.len() == 32,
    {
        let mut buf: Vec<u8> = Vec::new();
        append_bytes(&mut buf, self.path.as_str().as_bytes());
        append_args(&mut buf, &self.args);
        sha256_digest(buf.as_slice())
    }
}

/// Recipe for the solver that is implemented by an external program.
#[derive(Debug)]
pub struct ExternalProgramSolverRecipe {
    /// The path of the external program.
    pub path: String,
    /// The command line arguments that are passed to the program.
    pub args: Vec<String>,
}

impl ExternalProgramSolverRecipe {
    /// The key under which the factory of this recipe is cached, given the content of
    /// the program file: the SHA-256 digest of that content followed by the arguments.
    pub fn cache_key(&self, program: &[u8]) -> (res: Vec<u8>)
        ensures
            res@ == sha256(program@ + utf8_concat(views(self.args@))),
            res@.len() == 32,
    {
        let mut buf: Vec<u8> = Vec::new();
        append_bytes(&mut buf, program);
        append_args(&mut buf, &self.args);
        sha256_digest(buf.as_slice())
    }
}

/// Recipe for the problem implemented by an embedded script.
#[derive(Debug)]
pub struct EmbeddedScriptProblemRecipe {
    /// Embedded script code.
    pub script: String,
    /// Command line arguments that are passed to the script.
    pub args: Vec<String>,
}

/// Recipe for the solver implemented by an embedded script.
#[derive(Debug)]
pub struct EmbeddedScriptSolverRecipe {
    /// Embedded script code.
    pub script: String,
    /// Command line arguments that are passed to the script.
    pub args: Vec<String>,
}

fn clone_args(args: &Vec<String>) -> (res: Vec<String>)
    ensures
        res@ == args@,
{
    let mut res: Vec<String> = Vec::new();
    let mut i: usize = 0;
    while i < args.len()
        invariant
            i <= args@.len(),
            res@ == args@.take(i as int),
        decreases args.len() - i,
    {
        res.push(args[i].clone());
        assert(args@.take(i + 1) == args@.take(i as int).push(args@[i as int]));
        i = i + 1;
    }
    assert(args@.take(args@.len() as int) == args@);
    res
}

impl EmbeddedScriptProblemRecipe {
    /// The recipe that runs the script, once it is written to the file at `path`.
    pub fn to_external(&self, path: &str) -> (res: ExternalProgramProblemRecipe)
        ensures
            res.path@ == path@,
            res.args@ == self.args@,
    {
        ExternalProgramProblemRecipe { path: path.to_owned(), args: clone_args(&self.args) }
    }
}

impl EmbeddedScriptSolverRecipe {
    /// The recipe that runs the script, once it is written to the file at `path`.
    pub fn to_external(&self, path: &str) -> (res: ExternalProgramSolverRecipe)
        ensures
            res.path@ == path@,
            res.args@ == self.args@,
    {
        ExternalProgramSolverRecipe { path: path.to_owned(), args: clone_args(&self.args) }
    }
}

/// The prefix that marks a line of the external process's output as a message.
pub open spec fn message_prefix() -> Seq<char> {
    "kurobako:"@
}

/// The line that carries a message whose JSON text is `json`.
pub fn encode_message_line(json: &str) -> (res: String)
    ensures
        res@ == message_prefix() + json@ + seq!['\n'],
{
    let mut res = "kurobako:".to_owned();
    res.append(json);
    res.append("\n");
    proof {
        reveal_strlit("\n");
        assert("\n"@ =~= seq!['\n']);
    }
    res
}

/// Whether a line of the external process's output is a message line: one that starts
/// with the prefix.
pub open spec fn is_message_line(line: Seq<char>) -> bool {
    line.len() >= message_prefix().len() && line.subrange(0, message_prefix().len() as int) == message_prefix()
}

/// The text that a line hands to the JSON parser, if it is a message line: the whole line,
/// prefix included, as the receiver reads it.
///
/// Other lines are the external process's own output and carry no message. Since the
/// prefix is kept, the text handed on is not itself JSON: a receiver that parses it, as
/// this one's does, refuses every message line.
pub fn decode_message_line(line: &str) -> (res: Option<String>)
    ensures
        match res {
            Some(text) => is_message_line(line@) && text@ == line@,
            None => !is_message_line(line@),
        },
{
    let prefix = "kurobako:";
    proof {
        reveal_strlit("kurobako:");
    }
    let n = line.unicode_len();
    let m = prefix.unicode_len();
    if n < m {
        return None;
    }
    let head = line.substring_char(0, m);
    if !crate::text::str_eq(head, prefix) {
        return None;
    }
    Some(line.to_owned())
}

/// A line made by `encode_message_line` is a message line for `decode_message_line`.
pub proof fn lemma_decode_encoded_line(json: Seq<char>)
    ensures
        is_message_line(message_prefix() + json + seq!['\n']),
{
    let line = message_prefix() + json + seq!['\n'];
    let n = message_prefix().len() as int;
    assert(line.subrange(0, n) =~= message_prefix());
}

/// A reply of an external process to a call.
#[derive(Debug)]
pub enum Reply<T> {
    /// The reply that the call expects, with its content.
    Expected(T),
    /// An error reply.
    Error { kind: ErrorKind, message: Option<String> },
    /// Another message; the text describes it.
    Unexpected(String),
}

/// The failure of a call to an external process.
#[derive(Debug)]
pub struct Failure {
    pub kind: ErrorKind,
    pub message: Option<String>,
}

/// The outcome of a call given the reply: the expected content, the error that the process
/// reported, or an `Other` failure that names the unexpected message.
pub open spec fn reply_outcome<T>(r: Reply<T>) -> Result<T, (ErrorKind, Option<Seq<char>>)> {
    match r {
        Reply::Expected(t) => Ok(t),
        Reply::Error { kind, message } => Err((kind, match message { Some(m) => Some(m@), None => None })),
        Reply::Unexpected(text) => Err((ErrorKind::Other, Some("Unexpected message: "@ + text@))),
    }
}

/// The view of a failure.
pub open spec fn failure_view(f: Failure) -> (ErrorKind, Option<Seq<char>>) {
    (f.kind, match f.message { Some(m) => Some(m@), None => None })
}

/// The view of an outcome.
pub open spec fn outcome_view<T>(r: Result<T, Failure>) -> Result<T, (ErrorKind, Option<Seq<char>>)> {
    match r {
        Ok(t) => Ok(t),
        Err(f) => Err(failure_view(f)),
    }
}

/// Turns the reply of an external process into the outcome of the call.
pub fn accept_reply<T>(r: Reply<T>) -> (res: Result<T, Failure>)
    ensures
        outcome_view(res) == reply_outcome(r),
{
    match r {
        Reply::Expected(t) => Ok(t),
        Reply::Error { kind, message } => Err(Failure { kind, message }),
        Reply::Unexpected(text) => {
            let mut m = "Unexpected message: ".to_owned();
            m.append(text.as_str());
            Err(Failure { kind: ErrorKind::Other, message: Some(m) })
        },
    }
}

/// The message of a refused `ask` reply: the generator's next identifier and the one the
/// solver reported.
pub open spec fn refused_id_message(next: u64, reported: u64) -> Seq<char> {
    "idg.peek_id().get()="@ + decimal(next as nat) + ", next_trial_id="@ + decimal(reported as nat)
}

/// Turns the reply to an `ask` call into the asked trial, bringing the identifier generator
/// up to the next identifier that the external solver reports.
///
/// The reply is refused with `InvalidInput`, leaving the generator unchanged, when that
/// identifier was already handed out; the failure's message gives both identifiers.
pub fn accept_ask_reply<T>(idg: &mut IdGen, r: Reply<(T, u64)>) -> (res: Result<T, Failure>)
    ensures
        match r {
            Reply::Expected((trial, next_id)) => if old(idg).next_value() <= next_id {
                res == Ok::<T, Failure>(trial) && final(idg).next_value() == next_id
            } else {
                res is Err && failure_view(res->Err_0) == (ErrorKind::InvalidInput, Some(
                    refused_id_message(old(idg).next_value(), next_id),
                ))
                    && final(idg).next_value() == old(idg).next_value()
            },
            _ => res is Err && failure_view(res->Err_0) == reply_outcome(r)->Err_0
                && final(idg).next_value() == old(idg).next_value(),
        },
{
    match r {
        Reply::Expected((trial, next_id)) => {
            let next = idg.peek_id().get();
            match idg.advance_to(next_id) {
                Ok(()) => Ok(trial),
                Err(kind) => {
                    let mut m = "idg.peek_id().get()=".to_owned();
                    m.append(u64_to_string(next).as_str());
                    m.append(", next_trial_id=");
                    m.append(u64_to_string(next_id).as_str());
                    Err(Failure { kind, message: Some(m) })
                },
            }
        },
        Reply::Error { kind, message } => Err(Failure { kind, message }),
        Reply::Unexpected(text) => {
            let mut m = "Unexpected message: ".to_owned();
            m.append(text.as_str());
            Err(Failure { kind: ErrorKind::Other, message: Some(m) })
        },
    }
}

} // verus!
