//! What is sent to the clipboard: the Base64 form of the text inside an
//! OSC 52 terminal escape, and how the two copy paths combine.

use vstd::prelude::*;
use crate::text::{extend_str, string_from};
use vstd::string::StringSliceAdditionalSpecFns;

verus! {

/// The Base64 alphabet: A-Z, a-z, 0-9, '+', '/'.
pub open spec fn b64_char(i: int) -> char {
    if i < 26 {
        (65 + i) as char
    } else if i < 52 {
        (97 + (i - 26)) as char
    } else if i < 62 {
        (48 + (i - 52)) as char
    } else if i == 62 {
        '+'
    } else {
        '/'
    }
}

/// The four chars for one group of one to three bytes, padded with '='.
pub open spec fn b64_group(g: Seq<u8>) -> Seq<char> {
    let b0 = g[0] as int;
    let b1 = if g.len() > 1 {
        g[1] as int
    } else {
        0
    };
    let b2 = if g.len() > 2 {
        g[2] as int
    } else {
        0
    };
    let n = b0 * 65536 + b1 * 256 + b2;
    seq![
        b64_char((n / 262144) % 64),
        b64_char((n / 4096) % 64),
        if g.len() > 1 {
            b64_char((n / 64) % 64)
        } else {
            '='
        },
        if g.len() > 2 {
            b64_char(n % 64)
        } else {
            '='
        },
    ]
}

/// Standard Base64 (RFC 4648, with padding) of `data`.
pub open spec fn base64_spec(data: Seq<u8>) -> Seq<char>
    decreases data.len(),
{
    if data.len() == 0 {
        seq![]
    } else if data.len() <= 3 {
        b64_group(data)
    } else {
        b64_group(data.take(3)) + base64_spec(data.skip(3))
    }
}

fn alphabet(i: u32) -> (c: char)
    requires
        i < 64,
    ensures
        c == b64_char(i as int),
{
    if i < 26 {
        ((65 + i) as u8) as char
    } else if i < 52 {
        ((97 + (i - 26)) as u8) as char
    } else if i < 62 {
        ((48 + (i - 52)) as u8) as char
    } else if i == 62 {
        '+'
    } else {
        '/'
    }
}

fn encode_group(out: &mut Vec<char>, data: &[u8], start: usize, len: usize)
    requires
        1 <= len <= 3,
        start + len <= data@.len(),
    ensures
        final(out)@ == old(out)@ + b64_group(data@.subrange(start as int, start + len)),
{
    let ghost g = data@.subrange(start as int, start + len);
    let b0 = data[start] as u32;
    let b1 = if len > 1 {
        data[start + 1] as u32
    } else {
        0
    };
    let b2 = if len > 2 {
        data[start + 2] as u32
    } else {
        0
    };
    let n: u32 = b0 * 65536 + b1 * 256 + b2;
    out.push(alphabet((n / 262144) % 64));
    out.push(alphabet((n / 4096) % 64));
    out.push(
        if len > 1 {
            alphabet((n / 64) % 64)
        } else {
            '='
        },
    );
    out.push(
        if len > 2 {
            alphabet(n % 64)
        } else {
            '='
        },
    );
    assert(final(out)@ =~= old(out)@ + b64_group(g));
}

/// Standard Base64 (with padding) of `data`.
pub fn base64_encode(data: &[u8]) -> (r: String)
    ensures
        r@ == base64_spec(data@),
{
    let mut out: Vec<char> = Vec::new();
    let n = data.len();
    let mut pos: usize = 0;
    assert(data@.skip(0) =~= data@);
    assert(out@ + base64_spec(data@) =~= base64_spec(data@));
    while pos < n
        invariant
            n == data@.len(),
            pos <= n,
            base64_spec(data@) == out@ + base64_spec(data@.skip(pos as int)),
        decreases n - pos,
    {
        let rest = n - pos;
        let len: usize = if rest > 3 {
            3
        } else {
            rest
        };
        let ghost tail = data@.skip(pos as int);
        encode_group(&mut out, data, pos, len);
        if rest > 3 {
            assert(tail.take(3) =~= data@.subrange(pos as int, pos + 3));
            assert(tail.skip(3) =~= data@.skip(pos + 3));
        } else {
            assert(tail =~= data@.subrange(pos as int, pos + len));
            assert(data@.skip(pos + len) =~= Seq::<u8>::empty());
        }
        pos = pos + len;
    }
    assert(data@.skip(n as int) =~= Seq::<u8>::empty());
    assert(out@ =~= base64_spec(data@));
    string_from(out.as_slice())
}

/// The OSC 52 escape that asks the terminal to set its clipboard to the
/// Base64 of `bytes`.
pub open spec fn osc52_spec(bytes: Seq<u8>) -> Seq<char> {
    seq!['\u{1b}', ']', '5', '2', ';', 'c', ';'] + base64_spec(bytes) + seq!['\u{07}']
}

/// The OSC 52 escape for `text` (its UTF-8 bytes, Base64-encoded).
pub fn osc52_sequence(text: &str) -> (r: String)
    ensures
        r@ == osc52_spec(text.spec_bytes()),
{
    let b64 = base64_encode(text.as_bytes());
    let mut out: Vec<char> = Vec::new();
    out.push('\u{1b}');
    out.push(']');
    out.push('5');
    out.push('2');
    out.push(';');
    out.push('c');
    out.push(';');
    extend_str(&mut out, b64.as_str());
    out.push('\u{07}');
    assert(out@ =~= osc52_spec(text.spec_bytes()));
    string_from(out.as_slice())
}

/// Copying succeeds when either the native clipboard or the terminal
/// escape worked; only when both failed is it an error.
pub fn copy_outcome(native_ok: bool, osc52_ok: bool) -> (r: Result<(), String>)
    ensures
        r is Ok <==> (native_ok || osc52_ok),
        r matches Err(e) ==> e@ == "clipboard unavailable"@,
{
    if native_ok || osc52_ok {
        Ok(())
    } else {
        let mut v: Vec<char> = Vec::new();
        extend_str(&mut v, "clipboard unavailable");
        assert(v@ =~= "clipboard unavailable"@);
        Err(string_from(v.as_slice()))
    }
}

/// Base64 takes four chars for every three bytes, the last group padded:
/// `4 * ceil(n / 3)` chars for `n` bytes.
pub proof fn lemma_base64_len(data: Seq<u8>)
    ensures
        base64_spec(data).len() == 4 * ((data.len() + 2) / 3),
    decreases data.len(),
{
    if data.len() > 3 {
        lemma_base64_len(data.skip(3));
    }
}

} // verus!
