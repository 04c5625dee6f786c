//! The console commands that write a file into the watch's storage.

use base64::engine::general_purpose::STANDARD_NO_PAD;
use base64::Engine;
use crate::flash::ZERO;
use vstd::prelude::*;
use vstd::slice::slice_subrange;
use vstd::string::StringSliceAdditionalSpecFns;

verus! {

/// A file that is not evaluated is written in pieces of this many bytes.
pub const CHUNK_SIZE: usize = 32768;

/// The base64 text of `data` in the standard alphabet, without padding.
pub uninterp spec fn base64_no_pad(data: Seq<u8>) -> Seq<u8>;

/// Whether the base64 text of `len` bytes has a length that fits `usize`.
pub open spec fn encodable(len: nat) -> bool {
    (len / 3) * 4 + 3 <= usize::MAX
}

/// Whether the base64 text of `len` bytes has a length that fits `usize`.
pub fn can_encode(len: usize) -> (ok: bool)
    ensures
        ok == encodable(len as nat),
{
    len / 3 <= (usize::MAX - 3) / 4
}

/// Calls `base64::Engine::encode` on `base64::engine::general_purpose::STANDARD_NO_PAD`
/// and takes the bytes of the text that it returns. Trusted: that this text
/// is the base64 text of `data`, a function of `data` alone. The encoder
/// panics where the length of the text does not fit `usize`.
#[verifier::external_body]
fn base64_encode(data: &[u8]) -> (text: Vec<u8>)
    requires
        encodable(data@.len()),
    ensures
        text@ == base64_no_pad(data@),
{
    STANDARD_NO_PAD.encode(data).into_bytes()
}

/// The decimal digits of `n`, in ASCII, without leading zeros.
pub open spec fn decimal(n: nat) -> Seq<u8>
    decreases n,
{
    if n < 10 {
        seq![(ZERO + n) as u8]
    } else {
        decimal(n / 10).push((ZERO + n % 10) as u8)
    }
}

/// The command that writes a file and has the watch evaluate it while it
/// does so, for the base64 texts `name` of the file's path and `body` of its
/// contents.
pub open spec fn eval_text(name: Seq<u8>, body: Seq<u8>) -> Seq<u8> {
    "\x10require('Storage').write(atob('".spec_bytes() + name + "'), eval(atob('".spec_bytes()
        + body + "')));\n".spec_bytes()
}

/// The command that writes one piece of a file at `offset`, for the base64
/// texts `name` of the file's path and `body` of the piece. The file is to
/// hold `total` bytes in the end.
pub open spec fn chunk_text(name: Seq<u8>, body: Seq<u8>, offset: nat, total: nat) -> Seq<u8> {
    "\x10require('Storage').write(atob('".spec_bytes() + name + "'), atob('".spec_bytes() + body
        + "'), ".spec_bytes() + decimal(offset) + ", ".spec_bytes() + decimal(total)
        + ");\n".spec_bytes()
}

/// The command that writes `contents` to the file `path` and has the watch
/// evaluate it while it does so.
pub open spec fn eval_command(path: Seq<u8>, contents: Seq<u8>) -> Seq<u8> {
    eval_text(base64_no_pad(path), base64_no_pad(contents))
}

/// The command that writes `chunk` at `offset` into the file `path`, which is
/// to hold `total` bytes in the end.
pub open spec fn chunk_command(path: Seq<u8>, chunk: Seq<u8>, offset: nat, total: nat) -> Seq<u8> {
    chunk_text(base64_no_pad(path), base64_no_pad(chunk), offset, total)
}

/// The commands that write `contents` from `from` on to the file `path`,
/// piece by piece, each piece but the last of `CHUNK_SIZE` bytes.
pub open spec fn chunk_commands(path: Seq<u8>, contents: Seq<u8>, from: nat) -> Seq<u8>
    decreases contents.len() - from,
{
    if from >= contents.len() {
        Seq::empty()
    } else {
        let to: nat = if from + CHUNK_SIZE <= contents.len() {
            (from + CHUNK_SIZE) as nat
        } else {
            contents.len()
        };
        chunk_command(path, contents.subrange(from as int, to as int), from, contents.len())
            + chunk_commands(path, contents, to)
    }
}

/// The console input that writes `contents` to the file `path` in the
/// watch's storage: one command where the file is to be evaluated, else one
/// command for each piece; for an empty file that is not evaluated, nothing.
pub open spec fn write_command(path: Seq<u8>, contents: Seq<u8>, evaluate: bool) -> Seq<u8> {
    if evaluate {
        eval_command(path, contents)
    } else {
        chunk_commands(path, contents, 0)
    }
}

fn push_text(out: &mut Vec<u8>, text: &str)
    ensures
        final(out)@ == old(out)@ + text.spec_bytes(),
{
    let bytes = text.as_bytes();
    let mut i: usize = 0;
    while i < bytes.len()
        invariant
            i <= bytes@.len(),
            bytes@ == text.spec_bytes(),
            out@ == old(out)@ + bytes@.subrange(0, i as int),
        decreases bytes@.len() - i,
    {
        out.push(bytes[i]);
        i += 1;
    }
}

fn push_bytes(out: &mut Vec<u8>, bytes: &Vec<u8>)
    ensures
        final(out)@ == old(out)@ + bytes@,
{
    let mut i: usize = 0;
    while i < bytes.len()
        invariant
            i <= bytes@.len(),
            out@ == old(out)@ + bytes@.subrange(0, i as int),
        decreases bytes@.len() - i,
    {
        out.push(bytes[i]);
        i += 1;
    }
}

/// Appends the decimal digits of `n` to `out`.
pub fn push_decimal(out: &mut Vec<u8>, n: usize)
    ensures
        final(out)@ == old(out)@ + decimal(n as nat),
{
    let mut digits: Vec<u8> = Vec::new();
    let mut rest: usize = n;
    while rest >= 10
        invariant
            decimal(n as nat) == decimal(rest as nat) + digits@.reverse(),
        decreases rest,
    {
        let digit: u8 = ZERO + (rest % 10) as u8;
        digits.push(digit);
        rest = rest / 10;
    }
    out.push(ZERO + rest as u8);
    let ghost base = out@;
    let mut i: usize = digits.len();
    while i > 0
        invariant
            i <= digits@.len(),
            out@ == base + digits@.reverse().subrange(0, digits@.len() - i),
        decreases i,
    {
        i -= 1;
        out.push(digits[i]);
    }
}

/// Appends to `cmd` the command that writes a file and has the watch
/// evaluate it, for the base64 texts `name` of the file's path and `body` of
/// its contents.
pub fn push_eval_command(cmd: &mut Vec<u8>, name: &Vec<u8>, body: &Vec<u8>)
    ensures
        final(cmd)@ == old(cmd)@ + eval_text(name@, body@),
{
    push_text(cmd, "\x10require('Storage').write(atob('");
    push_bytes(cmd, name);
    push_text(cmd, "'), eval(atob('");
    push_bytes(cmd, body);
    push_text(cmd, "')));\n");
}

/// Appends to `cmd` the command that writes one piece of a file at `offset`,
/// for the base64 texts `name` of the file's path and `body` of the piece.
pub fn push_chunk_command(
    cmd: &mut Vec<u8>,
    name: &Vec<u8>,
    body: &Vec<u8>,
    offset: usize,
    total: usize,
)
    ensures
        final(cmd)@ == old(cmd)@ + chunk_text(name@, body@, offset as nat, total as nat),
{
    push_text(cmd, "\x10require('Storage').write(atob('");
    push_bytes(cmd, name);
    push_text(cmd, "'), atob('");
    push_bytes(cmd, body);
    push_text(cmd, "'), ");
    push_decimal(cmd, offset);
    push_text(cmd, ", ");
    push_decimal(cmd, total);
    push_text(cmd, ");\n");
}

/// The console input that writes `contents` to the file `path` in the
/// watch's storage.
pub fn storage_write_command(path: &[u8], contents: &[u8], evaluate: bool) -> (cmd: Vec<u8>)
    requires
        encodable(path@.len()),
        evaluate ==> encodable(contents@.len()),
    ensures
        cmd@ == write_command(path@, contents@, evaluate),
{
    let name = base64_encode(path);
    let mut cmd: Vec<u8> = Vec::new();
    if evaluate {
        let body = base64_encode(contents);
        push_eval_command(&mut cmd, &name, &body);
        return cmd;
    }
    let total: usize = contents.len();
    let mut from: usize = 0;
    while from < total
        invariant
            from <= total,
            total == contents@.len(),
            name@ == base64_no_pad(path@),
            cmd@ + chunk_commands(path@, contents@, from as nat) == chunk_commands(
                path@,
                contents@,
                0,
            ),
        decreases total - from,
    {
        let to: usize = if total - from >= CHUNK_SIZE { from + CHUNK_SIZE } else { total };
        let chunk = slice_subrange(contents, from, to);
        let body = base64_encode(chunk);
        push_chunk_command(&mut cmd, &name, &body, from, total);
        from = to;
    }
    cmd
}

} // verus!
