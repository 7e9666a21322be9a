//! The destination resolver: turns a destination into the publish path
//! suffix, percent-encoding a direct URL.

use vstd::prelude::*;
use vstd::utf8::encode_utf8;

use crate::client::request::PublishRequestUrl;
use crate::client::text::{hex_digit, push_hex_digit};

verus! {

/// A character that may stand raw in a request path: the unreserved and
/// sub-delimiter characters of the URL grammar, plus `:`, `@` and `/`.
pub open spec fn path_safe_char(c: char) -> bool {
    ||| ('a' <= c && c <= 'z') || ('A' <= c && c <= 'Z') || ('0' <= c && c <= '9')
    ||| c == '-' || c == '.' || c == '_' || c == '~'
    ||| c == '!' || c == '$' || c == '&' || c == '\'' || c == '(' || c == ')'
    ||| c == '*' || c == '+' || c == ',' || c == ';' || c == '='
    ||| c == ':' || c == '@' || c == '/'
}

/// Each byte as a percent escape of its two hexadecimal digits.
pub open spec fn percent_escaped_bytes(bs: Seq<u8>) -> Seq<char>
    decreases bs.len(),
{
    if bs.len() == 0 {
        Seq::empty()
    } else {
        percent_escaped_bytes(bs.drop_last()) + seq![
            '%',
            hex_digit((bs.last() / 16) as nat),
            hex_digit((bs.last() % 16) as nat),
        ]
    }
}

/// The percent-encoding of one character: itself when path-safe,
/// otherwise the percent escapes of its UTF-8 bytes.
pub open spec fn encoded_char(c: char) -> Seq<char> {
    if path_safe_char(c) {
        seq![c]
    } else {
        percent_escaped_bytes(encode_utf8(seq![c]))
    }
}

/// The percent-encoded form of `s`, character by character.
pub open spec fn percent_encoded(s: Seq<char>) -> Seq<char>
    decreases s.len(),
{
    if s.len() == 0 {
        Seq::empty()
    } else {
        percent_encoded(s.drop_last()) + encoded_char(s.last())
    }
}

/// Appends the percent escapes of `bs` to `out`.
#[verifier::loop_isolation(false)]
fn append_percent_escapes(out: &mut String, bs: &Vec<u8>)
    ensures
        final(out)@ == old(out)@ + percent_escaped_bytes(bs@),
{
    let mut j: usize = 0;
    proof {
        assert(bs@.take(0) =~= Seq::<u8>::empty());
        assert(out@ =~= old(out)@ + percent_escaped_bytes(bs@.take(0)));
    }
    while j < bs.len()
        invariant
            j <= bs@.len(),
            out@ == old(out)@ + percent_escaped_bytes(bs@.take(j as int)),
        decreases bs@.len() - j,
    {
        let b = bs[j];
        out.append("%");
        proof {
            reveal_strlit("%");
        }
        push_hex_digit(out, b as u32 / 16);
        push_hex_digit(out, b as u32 % 16);
        proof {
            assert(bs@.take(j + 1 as int).drop_last() =~= bs@.take(j as int));
            assert(bs@.take(j + 1 as int).last() == bs@[j as int]);
            assert(out@ =~= old(out)@ + percent_escaped_bytes(bs@.take(j + 1 as int)));
        }
        j += 1;
    }
    proof {
        assert(bs@.take(bs@.len() as int) =~= bs@);
    }
}

/// The percent-encoded form of `s`: path-safe characters stand as they
/// are, every other character becomes the escapes of its UTF-8 bytes.
#[verifier::loop_isolation(false)]
pub fn percent_encode(s: &str) -> (r: String)
    ensures
        r@ == percent_encoded(s@),
{
    let n = s.unicode_len();
    let mut out = String::new();
    let mut i: usize = 0;
    proof {
        assert(s@.take(0) =~= Seq::<char>::empty());
        assert(out@ =~= percent_encoded(s@.take(0)));
    }
    while i < n
        invariant
            i <= n,
            out@ == percent_encoded(s@.take(i as int)),
        decreases n - i,
    {
        let c = s.get_char(i);
        let safe = ('a' <= c && c <= 'z') || ('A' <= c && c <= 'Z') || ('0' <= c && c <= '9')
            || c == '-' || c == '.' || c == '_' || c == '~' || c == '!' || c == '$' || c == '&'
            || c == '\'' || c == '(' || c == ')' || c == '*' || c == '+' || c == ',' || c == ';'
            || c == '=' || c == ':' || c == '@' || c == '/';
        let piece = s.substring_char(i, i + 1);
        proof {
            assert(piece@ =~= seq![s@[i as int]]);
        }
        if safe {
            out.append(piece);
        } else {
            let bytes = piece.as_bytes_vec();
            proof {
                assert(bytes@ == encode_utf8(seq![s@[i as int]]));
            }
            append_percent_escapes(&mut out, &bytes);
        }
        proof {
            assert(s@.take(i + 1 as int).drop_last() =~= s@.take(i as int));
            assert(s@.take(i + 1 as int).last() == s@[i as int]);
            assert(out@ =~= percent_encoded(s@.take(i + 1 as int)));
        }
        i += 1;
    }
    proof {
        assert(s@.take(n as int) =~= s@);
    }
    out
}

/// The publish path suffix of a destination:
/// `/<version>/publish/<target>`, where the target is the percent-encoded
/// direct URL or the raw topic name.
pub open spec fn spec_publish_path(version: Seq<char>, dest: PublishRequestUrl) -> Seq<char> {
    match dest {
        PublishRequestUrl::Url(u) => "/"@ + version + "/publish/"@ + percent_encoded(u@),
        PublishRequestUrl::Topic(t) => "/"@ + version + "/publish/"@ + t@,
    }
}

/// Resolves a destination into the publish path suffix under the given
/// version path segment.
pub fn publish_path(version: &str, dest: &PublishRequestUrl) -> (r: String)
    ensures
        r@ == spec_publish_path(version@, *dest),
{
    let mut p = String::from_str("/");
    p.append(version);
    p.append("/publish/");
    match dest {
        PublishRequestUrl::Url(u) => {
            let enc = percent_encode(u.as_str());
            p.append(enc.as_str());
            proof {
                assert(p@ =~= "/"@ + version@ + "/publish/"@ + percent_encoded(u@));
            }
        },
        PublishRequestUrl::Topic(t) => {
            p.append(t.as_str());
            proof {
                assert(p@ =~= "/"@ + version@ + "/publish/"@ + t@);
            }
        },
    }
    p
}

} // verus!
