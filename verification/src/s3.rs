use vstd::prelude::*;
use vstd::pervasive::unreached;
use vstd::string::StringExecFns;

verus! {

/// The configuration payload an object-storage backend needs: region,
/// endpoint, credentials and bucket. The core treats the payload as opaque
/// once serialized; this type gives the embedder a checked way to produce
/// the serialized form.
#[derive(Debug)]
pub struct S3config {
    pub region: String,
    pub endpoint: String,
    pub access_key: String,
    pub secret_key: String,
    pub bucket: String,
}

/// The sixteen lowercase hexadecimal digits.
pub open spec fn hex_char_spec(n: int) -> char {
    if n == 0 {
        '0'
    } else if n == 1 {
        '1'
    } else if n == 2 {
        '2'
    } else if n == 3 {
        '3'
    } else if n == 4 {
        '4'
    } else if n == 5 {
        '5'
    } else if n == 6 {
        '6'
    } else if n == 7 {
        '7'
    } else if n == 8 {
        '8'
    } else if n == 9 {
        '9'
    } else if n == 10 {
        'a'
    } else if n == 11 {
        'b'
    } else if n == 12 {
        'c'
    } else if n == 13 {
        'd'
    } else if n == 14 {
        'e'
    } else {
        'f'
    }
}

fn hex_char(n: u32) -> (c: char)
    requires
        n < 16,
    ensures
        c == hex_char_spec(n as int),
{
    match n {
        0 => '0',
        1 => '1',
        2 => '2',
        3 => '3',
        4 => '4',
        5 => '5',
        6 => '6',
        7 => '7',
        8 => '8',
        9 => '9',
        10 => 'a',
        11 => 'b',
        12 => 'c',
        13 => 'd',
        14 => 'e',
        15 => 'f',
        _ => unreached(),
    }
}

/// How one character appears inside a JSON string literal: quote and
/// backslash escaped, the common control characters by their short escapes,
/// any other control character by its four-digit escape, everything else
/// verbatim.
pub open spec fn escaped_char(c: char) -> Seq<char> {
    if c == '"' {
        seq!['\\', '"']
    } else if c == '\\' {
        seq!['\\', '\\']
    } else if c == '\n' {
        seq!['\\', 'n']
    } else if c == '\r' {
        seq!['\\', 'r']
    } else if c == '\t' {
        seq!['\\', 't']
    } else if (c as u32) < 32 {
        seq![
            '\\',
            'u',
            '0',
            '0',
            hex_char_spec((c as u32 / 16) as int),
            hex_char_spec((c as u32 % 16) as int),
        ]
    } else {
        seq![c]
    }
}

/// A whole string as it appears inside a JSON string literal.
pub open spec fn escaped(s: Seq<char>) -> Seq<char>
    decreases s.len(),
{
    if s.len() == 0 {
        Seq::empty()
    } else {
        escaped(s.drop_last()) + escaped_char(s.last())
    }
}

/// Relies on String::push: appends exactly the one character.
#[verifier::external_body]
fn push_char(s: &mut String, c: char)
    ensures
        final(s)@ == old(s)@.push(c),
{
    s.push(c);
}

/// Appends the JSON-escaped form of `piece` to `out`.
fn append_escaped(out: &mut String, piece: &str)
    ensures
        final(out)@ == old(out)@ + escaped(piece@),
{
    let n = piece.unicode_len();
    let mut i: usize = 0;
    proof {
        assert(out@ =~= old(out)@ + escaped(piece@.take(0)));
    }
    while i < n
        invariant
            n == piece@.len(),
            0 <= i <= n,
            out@ == old(out)@ + escaped(piece@.take(i as int)),
        decreases n - i,
    {
        let c = piece.get_char(i);
        if c == '"' {
            push_char(out, '\\');
            push_char(out, '"');
        } else if c == '\\' {
            push_char(out, '\\');
            push_char(out, '\\');
        } else if c == '\n' {
            push_char(out, '\\');
            push_char(out, 'n');
        } else if c == '\r' {
            push_char(out, '\\');
            push_char(out, 'r');
        } else if c == '\t' {
            push_char(out, '\\');
            push_char(out, 't');
        } else if (c as u32) < 32 {
            push_char(out, '\\');
            push_char(out, 'u');
            push_char(out, '0');
            push_char(out, '0');
            push_char(out, hex_char(c as u32 / 16));
            push_char(out, hex_char(c as u32 % 16));
        } else {
            push_char(out, c);
        }
        proof {
            assert(piece@.take(i + 1).drop_last() =~= piece@.take(i as int));
            assert(out@ =~= old(out)@ + escaped(piece@.take(i + 1)));
        }
        i += 1;
    }
    proof {
        assert(piece@.take(n as int) =~= piece@);
    }
}

/// The serialized form of an object-storage configuration: one JSON object
/// with the five fields, each value escaped as a JSON string.
pub open spec fn s3config_json_spec(
    region: Seq<char>,
    endpoint: Seq<char>,
    access_key: Seq<char>,
    secret_key: Seq<char>,
    bucket: Seq<char>,
) -> Seq<char> {
    "{\"region\":\""@ + escaped(region) + "\",\"endpoint\":\""@ + escaped(endpoint)
        + "\",\"access_key\":\""@ + escaped(access_key) + "\",\"secret_key\":\""@ + escaped(
        secret_key,
    ) + "\",\"bucket\":\""@ + escaped(bucket) + "\"}"@
}

impl S3config {
    /// Renders the configuration as the serialized payload stored in a
    /// datastore registration.
    pub fn to_json(&self) -> (r: String)
        ensures
            r@ == s3config_json_spec(
                self.region@,
                self.endpoint@,
                self.access_key@,
                self.secret_key@,
                self.bucket@,
            ),
    {
        let mut out = String::from_str("{\"region\":\"");
        append_escaped(&mut out, self.region.as_str());
        out.append("\",\"endpoint\":\"");
        append_escaped(&mut out, self.endpoint.as_str());
        out.append("\",\"access_key\":\"");
        append_escaped(&mut out, self.access_key.as_str());
        out.append("\",\"secret_key\":\"");
        append_escaped(&mut out, self.secret_key.as_str());
        out.append("\",\"bucket\":\"");
        append_escaped(&mut out, self.bucket.as_str());
        out.append("\"}");
        out
    }
}

} // verus!
