use vstd::prelude::*;
use vstd::string::StrSliceExecFns;
use vstd::string::StringExecFns;

verus! {

/// Whether a character may stand as itself in the plain filename token
/// of the download header: letters, digits, and an allow-listed set of
/// punctuation; every other character is replaced.
pub open spec fn spec_header_char_allowed(c: char) -> bool {
    ||| ('a' <= c && c <= 'z')
    ||| ('A' <= c && c <= 'Z')
    ||| ('0' <= c && c <= '9')
    ||| c == '.'
    ||| c == '_'
    ||| c == '-'
    ||| c == '+'
    ||| c == ','
    ||| c == '@'
    ||| c == '\u{a3}'
    ||| c == '$'
    ||| c == '\u{20ac}'
    ||| c == '!'
    ||| c == '\u{bd}'
    ||| c == '\u{a7}'
    ||| c == '~'
    ||| c == '\''
    ||| c == '='
    ||| c == '('
    ||| c == ')'
    ||| c == '['
    ||| c == ']'
    ||| c == '{'
    ||| c == '}'
}

/// A filename with every character outside the allow-list replaced by
/// an underscore, character for character.
pub open spec fn spec_sanitize_filename(s: Seq<char>) -> Seq<char> {
    Seq::new(s.len(), |i: int| if spec_header_char_allowed(s[i]) {
        s[i]
    } else {
        '_'
    })
}

fn header_char_allowed(c: char) -> (r: bool)
    ensures
        r == spec_header_char_allowed(c),
{
    ('a' <= c && c <= 'z') || ('A' <= c && c <= 'Z') || ('0' <= c && c <= '9') || c == '.'
        || c == '_' || c == '-' || c == '+' || c == ',' || c == '@' || c == '\u{a3}' || c == '$'
        || c == '\u{20ac}' || c == '!' || c == '\u{bd}' || c == '\u{a7}' || c == '~' || c == '\''
        || c == '=' || c == '(' || c == ')' || c == '[' || c == ']' || c == '{' || c == '}'
}

/// Replaces every character outside the allow-list by an underscore.
pub fn sanitize_filename(s: &str) -> (r: String)
    ensures
        r@ == spec_sanitize_filename(s@),
{
    let n = s.unicode_len();
    let mut out = String::new();
    let mut i: usize = 0;
    while i < n
        invariant
            i <= n,
            n == s@.len(),
            out@ =~= spec_sanitize_filename(s@.take(i as int)),
        decreases n - i,
    {
        let c = s.get_char(i);
        if header_char_allowed(c) {
            out.push(c);
        } else {
            out.push('_');
        }
        proof {
            assert(out@ =~= spec_sanitize_filename(s@.take(i + 1)));
        }
        i += 1;
    }
    proof {
        assert(s@.take(n as int) =~= s@);
    }
    out
}

/// What percent-encoding a string yields: each UTF-8 byte kept or
/// written as a percent escape, a function of the characters alone.
/// Named, not spelled out; url_encor computes it.
pub uninterp spec fn percent_encoded(s: Seq<char>) -> Seq<char>;

/// Relies on url_encor::encode: percent-encodes the string byte by byte
/// over its UTF-8 bytes, depending on the input characters alone; an
/// empty input stays empty.
#[verifier::external_body]
fn percent_encode(s: &str) -> (r: String)
    ensures
        r@ == percent_encoded(s@),
        s@.len() == 0 ==> r@.len() == 0,
{
    url_encor::encode(s)
}

/// The value of the download disposition header for a filename: an
/// attachment whose plain token carries the sanitized name and whose
/// extended token carries the percent-encoded original.
pub fn content_disposition_value(filename: &str) -> (r: String)
    ensures
        r@ == "attachment; filename=\""@ + spec_sanitize_filename(filename@)
            + "\"; filename*=utf-8''"@ + percent_encoded(filename@),
{
    let mut out = String::new();
    out.append("attachment; filename=\"");
    let plain = sanitize_filename(filename);
    out.append(plain.as_str());
    out.append("\"; filename*=utf-8''");
    let encoded = percent_encode(filename);
    out.append(encoded.as_str());
    out
}

} // verus!
