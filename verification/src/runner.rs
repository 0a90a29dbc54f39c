//! What a process is asked to do, and what came back from it, as values.
//!
//! Nothing here starts a process: the library decides what to run and reads
//! what a run printed, and whoever holds the operating system does the rest.

use vstd::prelude::*;

use crate::text::{chars_of, owned, push_char, replace_char_spec, trim, trim_spec};

verus! {

/// One process invocation.
#[derive(Debug, Clone, PartialEq, Eq)]
pub struct Cmd {
    pub program: String,
    pub args: Vec<String>,
    /// The working directory, when it is not the caller's.
    pub cwd: Option<String>,
    /// Whether the child's stderr goes to the terminal rather than into the
    /// captured output.
    pub inherit_stderr: bool,
    /// Whether the child is handed the terminal's stdin.
    pub interactive: bool,
}

impl Cmd {
    pub fn new(program: &str) -> (r: Cmd)
        ensures
            r.program@ == program@,
            r.args@.len() == 0,
            r.cwd is None,
            !r.inherit_stderr,
            !r.interactive,
    {
        Cmd {
            program: owned(program),
            args: Vec::new(),
            cwd: None,
            inherit_stderr: false,
            interactive: false,
        }
    }

    /// One more argument.
    pub fn arg(self, a: String) -> (r: Cmd)
        ensures
            r.program == self.program,
            r.args@ == self.args@.push(a),
            r.cwd == self.cwd,
            r.inherit_stderr == self.inherit_stderr,
            r.interactive == self.interactive,
    {
        let mut r = self;
        r.args.push(a);
        r
    }

    /// These arguments, after any already there.
    pub fn args(self, more: Vec<String>) -> (r: Cmd)
        ensures
            r.program == self.program,
            r.args@ == self.args@ + more@,
            r.cwd == self.cwd,
            r.inherit_stderr == self.inherit_stderr,
            r.interactive == self.interactive,
    {
        let mut r = self;
        let mut more = more;
        r.args.append(&mut more);
        r
    }

    /// Run in this directory.
    pub fn cwd(self, dir: String) -> (r: Cmd)
        ensures
            r.program == self.program,
            r.args == self.args,
            r.cwd == Some(dir),
            r.inherit_stderr == self.inherit_stderr,
            r.interactive == self.interactive,
    {
        let mut r = self;
        r.cwd = Some(dir);
        r
    }

    /// Let stderr reach the terminal while stdout is captured.
    pub fn show_stderr(self) -> (r: Cmd)
        ensures
            r.program == self.program,
            r.args == self.args,
            r.cwd == self.cwd,
            r.inherit_stderr,
            r.interactive == self.interactive,
    {
        let mut r = self;
        r.inherit_stderr = true;
        r
    }

    /// Hand the child the terminal.
    pub fn interactive(self) -> (r: Cmd)
        ensures
            r.program == self.program,
            r.args == self.args,
            r.cwd == self.cwd,
            r.inherit_stderr == self.inherit_stderr,
            r.interactive,
    {
        let mut r = self;
        r.interactive = true;
        r
    }
}

/// What a finished process left behind.
#[derive(Debug, Clone, PartialEq, Eq)]
pub struct CommandOutput {
    /// The exit code, or `None` for a process ended by a signal.
    pub code: Option<i32>,
    pub stdout: String,
    pub stderr: String,
}

impl CommandOutput {
    pub fn success(&self) -> (r: bool)
        ensures
            r == (self.code == Some(0i32)),
    {
        match self.code {
            Some(c) => c == 0,
            None => false,
        }
    }

    /// The standard output without surrounding whitespace.
    pub fn trimmed(&self) -> (r: String)
        ensures
            r@ == trim_spec(self.stdout@),
    {
        trim(self.stdout.as_str())
    }
}

/// A value quoted for `PowerShell`: single quotes, with each one inside doubled.
pub open spec fn ps_quote_spec(s: Seq<char>) -> Seq<char>
    decreases s.len(),
{
    "'"@ + ps_double(s) + "'"@
}

/// Each single quote doubled.
pub open spec fn ps_double(s: Seq<char>) -> Seq<char>
    decreases s.len(),
{
    if s.len() == 0 {
        Seq::empty()
    } else if s.last() == '\'' {
        ps_double(s.drop_last()) + seq!['\'', '\'']
    } else {
        ps_double(s.drop_last()).push(s.last())
    }
}

/// Quote a value for a `PowerShell` script.
pub fn ps_quote(s: &str) -> (r: String)
    ensures
        r@ == ps_quote_spec(s@),
{
    let v = chars_of(s);
    let mut body = String::new();
    let mut i: usize = 0;
    while i < v.len()
        invariant
            v@ == s@,
            i <= v.len(),
            body@ == ps_double(v@.subrange(0, i as int)),
        decreases v.len() - i,
    {
        let c = v[i];
        proof {
            assert(v@.subrange(0, i + 1).drop_last() == v@.subrange(0, i as int));
            assert(v@.subrange(0, i + 1).last() == c);
        }
        if c == '\'' {
            push_char(&mut body, '\'');
            push_char(&mut body, '\'');
            assert(body@ =~= ps_double(v@.subrange(0, i + 1)));
        } else {
            push_char(&mut body, c);
        }
        i = i + 1;
    }
    assert(v@.subrange(0, v.len() as int) == v@);
    let mut r = owned("'");
    r.append(body.as_str());
    r.append("'");
    r
}

// ---------------------------------------------------------------------------
// Base64
// ---------------------------------------------------------------------------

/// The standard base64 alphabet.
pub open spec fn b64_char(n: nat) -> char {
    if n < 26 {
        (65 + n) as char
    } else if n < 52 {
        (97 + (n - 26)) as char
    } else if n < 62 {
        (48 + (n - 52)) as char
    } else if n == 62 {
        '+'
    } else {
        '/'
    }
}

/// RFC 4648 base64 with padding.
pub open spec fn base64(b: Seq<u8>) -> Seq<char>
    decreases b.len(),
{
    if b.len() == 0 {
        Seq::empty()
    } else if b.len() == 1 {
        let n = (b[0] as nat) * 65536;
        seq![b64_char(n / 262144), b64_char((n / 4096) % 64), '=', '=']
    } else if b.len() == 2 {
        let n = (b[0] as nat) * 65536 + (b[1] as nat) * 256;
        seq![b64_char(n / 262144), b64_char((n / 4096) % 64), b64_char((n / 64) % 64), '=']
    } else {
        b64_group(b[0], b[1], b[2]) + base64(b.skip(3))
    }
}

fn b64_digit(n: u32) -> (r: char)
    requires
        n < 64,
    ensures
        r == b64_char(n as nat),
{
    if n < 26 {
        ((65 + n) as u8) as char
    } else if n < 52 {
        ((97 + (n - 26)) as u8) as char
    } else if n < 62 {
        ((48 + (n - 52)) as u8) as char
    } else if n == 62 {
        '+'
    } else {
        '/'
    }
}

/// The four characters of one full group of three bytes.
pub open spec fn b64_group(x: u8, y: u8, z: u8) -> Seq<char> {
    let n = (x as nat) * 65536 + (y as nat) * 256 + (z as nat);
    seq![
        b64_char(n / 262144),
        b64_char((n / 4096) % 64),
        b64_char((n / 64) % 64),
        b64_char(n % 64),
    ]
}

proof fn lemma_base64_step(b: Seq<u8>)
    requires
        b.len() >= 3,
    ensures
        base64(b) == b64_group(b[0], b[1], b[2]) + base64(b.skip(3)),
{
}

/// The value RFC 4648 gives a character of the base64 alphabet.
pub open spec fn b64_value(c: char) -> nat {
    if 'A' <= c && c <= 'Z' {
        (c as nat - 65) as nat
    } else if 'a' <= c && c <= 'z' {
        (c as nat - 97 + 26) as nat
    } else if '0' <= c && c <= '9' {
        (c as nat - 48 + 52) as nat
    } else if c == '+' {
        62
    } else {
        63
    }
}

/// RFC 4648 base64 decoding of padded text: each group of four characters
/// carries three bytes, or two where it ends in one `=`, or one where it ends
/// in two.
pub open spec fn base64_decode(s: Seq<char>) -> Seq<u8>
    decreases s.len(),
{
    if s.len() < 4 {
        Seq::empty()
    } else {
        let a = b64_value(s[0]);
        let b = b64_value(s[1]);
        let c = b64_value(s[2]);
        let d = b64_value(s[3]);
        let x = (a * 4 + b / 16) as u8;
        let y = ((b % 16) * 16 + c / 4) as u8;
        let z = ((c % 4) * 64 + d) as u8;
        if s[2] == '=' {
            seq![x]
        } else if s[3] == '=' {
            seq![x, y]
        } else {
            seq![x, y, z] + base64_decode(s.skip(4))
        }
    }
}

proof fn lemma_b64_value(n: nat)
    requires
        n < 64,
    ensures
        b64_value(b64_char(n)) == n,
        b64_char(n) != '=',
{
}

/// The four sextets of a 24-bit group put back together give its bytes.
proof fn lemma_sextets(x: u32, y: u32, z: u32)
    by (bit_vector)
    requires
        x < 256,
        y < 256,
        z < 256,
    ensures
        ((x * 65536 + y * 256 + z) / 262144) * 4 + (((x * 65536 + y * 256 + z) / 4096) % 64) / 16 == x,
        ((((x * 65536 + y * 256 + z) / 4096) % 64) % 16) * 16 + (((x * 65536 + y * 256 + z) / 64) % 64) / 4
            == y,
        ((((x * 65536 + y * 256 + z) / 64) % 64) % 4) * 64 + (x * 65536 + y * 256 + z) % 64 == z,
        (x * 65536 + y * 256 + z) / 262144 < 64,
{
}

/// Base64 decodes back to what was encoded: whatever the bytes, decoding
/// their base64 by RFC 4648 gives them back.
pub proof fn lemma_base64_decodes_back(b: Seq<u8>)
    ensures
        base64_decode(base64(b)) == b,
    decreases b.len(),
{
    let s = base64(b);
    if b.len() == 0 {
    } else if b.len() == 1 {
        let x = b[0] as u32;
        lemma_sextets(x, 0, 0);
        let n = (b[0] as nat) * 65536;
        lemma_b64_value(n / 262144);
        lemma_b64_value((n / 4096) % 64);
        assert(base64_decode(s) =~= b);
    } else if b.len() == 2 {
        let x = b[0] as u32;
        let y = b[1] as u32;
        lemma_sextets(x, y, 0);
        let n = (b[0] as nat) * 65536 + (b[1] as nat) * 256;
        lemma_b64_value(n / 262144);
        lemma_b64_value((n / 4096) % 64);
        lemma_b64_value((n / 64) % 64);
        assert(base64_decode(s) =~= b);
    } else {
        let x = b[0] as u32;
        let y = b[1] as u32;
        let z = b[2] as u32;
        lemma_sextets(x, y, z);
        let n = (b[0] as nat) * 65536 + (b[1] as nat) * 256 + (b[2] as nat);
        lemma_b64_value(n / 262144);
        lemma_b64_value((n / 4096) % 64);
        lemma_b64_value((n / 64) % 64);
        lemma_b64_value(n % 64);
        let g = b64_group(b[0], b[1], b[2]);
        let rest = base64(b.skip(3));
        assert(s == g + rest);
        assert(s.skip(4) =~= rest);
        assert(s[0] == g[0] && s[1] == g[1] && s[2] == g[2] && s[3] == g[3]);
        lemma_base64_decodes_back(b.skip(3));
        assert(base64_decode(s) =~= seq![b[0], b[1], b[2]] + b.skip(3));
        assert(seq![b[0], b[1], b[2]] + b.skip(3) =~= b);
    }
}

fn push_group(out: &mut String, x: u8, y: u8, z: u8)
    ensures
        final(out)@ == old(out)@ + b64_group(x, y, z),
{
    let n: u32 = (x as u32) * 65536 + (y as u32) * 256 + (z as u32);
    assert(n < 16777216);
    let ghost before = out@;
    push_char(out, b64_digit(n / 262144));
    push_char(out, b64_digit((n / 4096) % 64));
    push_char(out, b64_digit((n / 64) % 64));
    push_char(out, b64_digit(n % 64));
    assert(out@ =~= before + b64_group(x, y, z));
}

/// Base64 of a byte string.
pub fn base64_encode(b: &[u8]) -> (r: String)
    ensures
        r@ == base64(b@),
{
    let mut out = String::new();
    let mut i: usize = 0;
    assert(b@.skip(0) =~= b@);
    while b.len() - i >= 3
        invariant
            i <= b.len(),
            base64(b@) == out@ + base64(b@.skip(i as int)),
        decreases b.len() - i,
    {
        let ghost rest = b@.skip(i as int);
        proof {
            assert(rest[0] == b@[i as int]);
            assert(rest[1] == b@[i + 1]);
            assert(rest[2] == b@[i + 2]);
            assert(rest.skip(3) =~= b@.skip(i + 3));
            lemma_base64_step(rest);
        }
        let ghost before = out@;
        push_group(&mut out, b[i], b[i + 1], b[i + 2]);
        proof {
            assert(before + (b64_group(b@[i as int], b@[i + 1], b@[i + 2]) + base64(b@.skip(i + 3)))
                =~= out@ + base64(b@.skip(i + 3)));
        }
        i = i + 3;
    }
    let left = b.len() - i;
    let ghost rest = b@.skip(i as int);
    if left == 1 {
        let n: u32 = (b[i] as u32) * 65536;
        proof {
            assert(rest[0] == b@[i as int]);
        }
        let ghost before = out@;
        push_char(&mut out, b64_digit(n / 262144));
        push_char(&mut out, b64_digit((n / 4096) % 64));
        push_char(&mut out, '=');
        push_char(&mut out, '=');
        assert(out@ =~= before + base64(rest));
    } else if left == 2 {
        let n: u32 = (b[i] as u32) * 65536 + (b[i + 1] as u32) * 256;
        proof {
            assert(rest[0] == b@[i as int]);
            assert(rest[1] == b@[i + 1]);
        }
        let ghost before = out@;
        push_char(&mut out, b64_digit(n / 262144));
        push_char(&mut out, b64_digit((n / 4096) % 64));
        push_char(&mut out, b64_digit((n / 64) % 64));
        push_char(&mut out, '=');
        assert(out@ =~= before + base64(rest));
    } else {
        assert(rest.len() == 0);
        assert(out@ + base64(rest) =~= out@);
    }
    out
}

/// The UTF-16 code units of a string, little-endian, as bytes.
pub open spec fn utf16le(s: Seq<char>) -> Seq<u8>
    decreases s.len(),
{
    if s.len() == 0 {
        Seq::empty()
    } else {
        utf16le(s.drop_last()) + unit_bytes(s.last() as u32)
    }
}

/// One character's UTF-16 units, each low byte first.
pub open spec fn unit_bytes(c: u32) -> Seq<u8> {
    if c < 0x10000 {
        seq![(c % 256) as u8, (c / 256) as u8]
    } else {
        let v = (c - 0x10000) as nat;
        let hi = 0xD800 + v / 1024;
        let lo = 0xDC00 + v % 1024;
        seq![(hi % 256) as u8, (hi / 256) as u8, (lo % 256) as u8, (lo / 256) as u8]
    }
}

/// UTF-16LE writes each character of the basic plane as one 16-bit unit, low
/// byte first: the text's units read back, in order, are its characters.
pub proof fn lemma_utf16le_units(s: Seq<char>)
    requires
        forall|k: int| 0 <= k < s.len() ==> (s[k] as u32) < 0x10000,
    ensures
        utf16le(s).len() == 2 * s.len(),
        forall|k: int|
            0 <= k < s.len() ==> (#[trigger] utf16le(s)[2 * k]) as nat + 256 * (utf16le(s)[2 * k + 1] as nat)
                == s[k] as u32 as nat,
    decreases s.len(),
{
    if s.len() > 0 {
        let init = s.drop_last();
        lemma_utf16le_units(init);
        let c = s.last() as u32;
        let u = unit_bytes(c);
        assert(u.len() == 2);
        assert((u[0] as nat) + 256 * (u[1] as nat) == c as nat);
        let all = utf16le(s);
        assert(all == utf16le(init) + u);
        assert forall|k: int| 0 <= k < s.len() implies (#[trigger] all[2 * k]) as nat + 256 * (all[2 * k + 1] as nat)
            == s[k] as u32 as nat by {
            if k < init.len() {
                assert(s[k] == init[k]);
                assert(all[2 * k] == utf16le(init)[2 * k]);
                assert(all[2 * k + 1] == utf16le(init)[2 * k + 1]);
            } else {
                assert(all[2 * k] == u[0]);
                assert(all[2 * k + 1] == u[1]);
            }
        }
    }
}

/// Base64 of a string's UTF-8 bytes, which `base64 -d` turns back into it.
pub fn encode_text(s: &str) -> (r: String)
    ensures
        r@ == base64(vstd::utf8::encode_utf8(s@)),
{
    base64_encode(s.as_bytes())
}

/// What `powershell.exe -EncodedCommand` takes: base64 of the script's UTF-16LE.
pub fn encode_command(s: &str) -> (r: String)
    ensures
        r@ == base64(utf16le(s@)),
{
    let v = chars_of(s);
    let mut bytes: Vec<u8> = Vec::new();
    let mut i: usize = 0;
    while i < v.len()
        invariant
            v@ == s@,
            i <= v.len(),
            bytes@ == utf16le(v@.subrange(0, i as int)),
        decreases v.len() - i,
    {
        let c = v[i] as u32;
        proof {
            assert(v@.subrange(0, i + 1).drop_last() == v@.subrange(0, i as int));
            assert(v@.subrange(0, i + 1).last() == v@[i as int]);
        }
        let ghost before = bytes@;
        if c < 0x10000 {
            bytes.push((c % 256) as u8);
            bytes.push((c / 256) as u8);
        } else {
            let w = c - 0x10000;
            let hi = 0xD800 + w / 1024;
            let lo = 0xDC00 + w % 1024;
            bytes.push((hi % 256) as u8);
            bytes.push((hi / 256) as u8);
            bytes.push((lo % 256) as u8);
            bytes.push((lo / 256) as u8);
        }
        assert(bytes@ =~= before + unit_bytes(c));
        i = i + 1;
    }
    assert(v@.subrange(0, v.len() as int) == v@);
    base64_encode(bytes.as_slice())
}

/// What the process table says a running process is.
#[derive(Debug, Clone, PartialEq, Eq)]
pub struct ProcessIdentity {
    /// The executable's name.
    pub image: String,
    /// The full command line, where the host offers it cheaply.
    pub command_line: Option<String>,
}

/// How long a process name Linux keeps: longer names are cut to this.
pub const COMM_LEN: usize = 15;

/// A process table's name for a binary without a trailing `.exe`, whatever
/// its case.
pub open spec fn without_exe(found: Seq<char>) -> Seq<char> {
    if found.len() >= 4 && crate::text::lower_seq(found.skip(found.len() - 4)) == ".exe"@ {
        found.take(found.len() - 4)
    } else {
        found
    }
}

/// Whether a process table's name for a binary is `expected`: the same without
/// regard to case once a `.exe` is gone, or, for a name cut to the length
/// Linux keeps, the start of `expected`.
pub open spec fn image_matches_spec(found: Seq<char>, expected: Seq<char>) -> bool {
    let f = without_exe(found);
    crate::text::eq_ic(f, expected) || (f.len() == COMM_LEN && expected.len() > COMM_LEN
        && crate::text::eq_ic(f, expected.take(COMM_LEN as int)))
}

pub fn image_matches(found: &str, expected: &str) -> (r: bool)
    ensures
        r == image_matches_spec(found@, expected@),
{
    let v = chars_of(found);
    let e = chars_of(expected);
    let mut n = v.len();
    if n >= 4 {
        let x = chars_of(".exe");
        proof {
            reveal_strlit(".exe");
        }
        let tail = crate::text::slice_eq_ic(&v, n - 4, n, &x, 0, 4);
        proof {
            reveal_strlit(".exe");
            assert(x@.subrange(0, 4) =~= x@);
            assert(v@.subrange(n - 4, n as int) =~= v@.skip(n - 4));
            assert(crate::text::lower_seq(x@) =~= ".exe"@);
        }
        if tail {
            n = n - 4;
        }
    }
    proof {
        assert(v@.subrange(0, n as int) == without_exe(found@)) by {
            if n == v.len() {
                assert(v@.subrange(0, n as int) =~= v@);
            } else {
                assert(v@.subrange(0, n as int) =~= v@.take(n as int));
            }
        }
        assert(e@.subrange(0, e.len() as int) =~= e@);
    }
    if crate::text::slice_eq_ic(&v, 0, n, &e, 0, e.len()) {
        return true;
    }
    if n == COMM_LEN && e.len() > COMM_LEN {
        proof {
            assert(e@.subrange(0, COMM_LEN as int) =~= e@.take(COMM_LEN as int));
        }
        return crate::text::slice_eq_ic(&v, 0, n, &e, 0, COMM_LEN);
    }
    false
}

} // verus!
