//! The text of Bambu Studio's configuration file around its JSON: the MD5
//! checksum line that Bambu Studio appends on Windows.

use vstd::prelude::*;
use crate::text::{chars_of, push_str, string_of};

verus! {

broadcast use vstd::string::group_string_axioms;

/// The position of the last `}` of a text (meaningful when it has one).
pub open spec fn last_brace(s: Seq<char>) -> int {
    choose|i: int| 0 <= i < s.len() && s[i] == '}' && forall|k: int| i < k < s.len() ==> s[k] != '}'
}

/// The configuration text without what follows its JSON: everything up to
/// and including the last `}`, or all of it when there is none.
pub open spec fn without_checksum(s: Seq<char>) -> Seq<char> {
    if s.contains('}') {
        s.take(last_brace(s) + 1)
    } else {
        s
    }
}

/// Strips the MD5 checksum line that Bambu Studio appends after the JSON of
/// its configuration file (see `without_checksum`).
pub fn strip_md5_checksum(content: &str) -> (r: String)
    ensures
        r@ == without_checksum(content@),
{
    let v = chars_of(content);
    let mut i = v.len();
    while i > 0 && v[i - 1] != '}'
        invariant
            i <= v.len(),
            forall|k: int| i <= k < v.len() ==> v@[k] != '}',
        decreases i,
    {
        i = i - 1;
    }
    if i == 0 {
        proof {
            assert(!v@.contains('}')) by {
                if v@.contains('}') {
                    let k = choose|k: int| 0 <= k < v@.len() && v@[k] == '}';
                    assert(v@[k] != '}');
                }
            }
        }
        string_of(&v)
    } else {
        proof {
            let j = (i - 1) as int;
            assert(v@[j] == '}');
            assert(v@.contains('}'));
            let c = last_brace(v@);
            assert(0 <= c < v@.len() && v@[c] == '}' && forall|k: int| c < k < v@.len() ==> v@[k] != '}');
            if c < j {
                assert(v@[j] != '}');
            } else if c > j {
                assert(v@[c] != '}');
            }
        }
        string_of(&crate::text::sub_chars(&v, 0, i))
    }
}

/// What `md5::compute` gives for some bytes: their 16-byte MD5 digest.
pub uninterp spec fn md5_of(bytes: Seq<u8>) -> Seq<u8>;

/// `md5::compute`: the MD5 digest of a text's UTF-8 bytes (always 16 bytes).
#[verifier::external_body]
fn md5_digest(s: &str) -> (r: Vec<u8>)
    ensures
        r@ == md5_of(vstd::utf8::encode_utf8(s@)),
        r@.len() == 16,
{
    md5::compute(s.as_bytes()).0.to_vec()
}

/// An upper-case hexadecimal digit.
pub open spec fn hex_digit(d: int) -> char {
    if d < 10 {
        ((d + 48) as u32) as char
    } else {
        ((d + 55) as u32) as char
    }
}

/// Bytes as upper-case hexadecimal, two digits each.
pub open spec fn upper_hex(bytes: Seq<u8>) -> Seq<char>
    decreases bytes.len(),
{
    if bytes.len() == 0 {
        Seq::empty()
    } else {
        upper_hex(bytes.drop_last()) + seq![
            hex_digit(bytes.last() as int / 16),
            hex_digit(bytes.last() as int % 16),
        ]
    }
}

fn hex_char(d: u8) -> (c: char)
    requires
        d < 16,
    ensures
        c == hex_digit(d as int),
{
    if d < 10 {
        (d + 48) as char
    } else {
        (d + 55) as char
    }
}

/// The checksum line Bambu Studio expects after its configuration's JSON on
/// Windows: `# MD5 checksum `, the digest in upper-case hexadecimal, a newline.
pub open spec fn checksum_line(json: Seq<char>) -> Seq<char> {
    "# MD5 checksum "@ + upper_hex(md5_of(vstd::utf8::encode_utf8(json))) + seq!['\n']
}

/// Computes the MD5 checksum line for a configuration's JSON text.
pub fn compute_md5_checksum_line(json_content: &str) -> (r: String)
    ensures
        r@ == checksum_line(json_content@),
{
    let digest = md5_digest(json_content);
    let mut v: Vec<char> = Vec::new();
    push_str(&mut v, "# MD5 checksum ");
    let ghost prefix = v@;
    let mut i: usize = 0;
    while i < digest.len()
        invariant
            i <= digest.len(),
            v@ == prefix + upper_hex(digest@.take(i as int)),
        decreases digest.len() - i,
    {
        let b = digest[i];
        v.push(hex_char(b / 16));
        v.push(hex_char(b % 16));
        proof {
            assert(digest@.take(i + 1).drop_last() == digest@.take(i as int));
            assert(digest@.take(i + 1).last() == b);
            assert(v@ == prefix + upper_hex(digest@.take(i + 1)));
        }
        i = i + 1;
    }
    assert(digest@.take(digest.len() as int) == digest@);
    v.push('\n');
    string_of(&v)
}

/// Upper-case hexadecimal holds no closing brace.
proof fn lemma_hex_no_brace(bytes: Seq<u8>)
    ensures
        forall|i: int| 0 <= i < upper_hex(bytes).len() ==> upper_hex(bytes)[i] != '}',
    decreases bytes.len(),
{
    if bytes.len() > 0 {
        lemma_hex_no_brace(bytes.drop_last());
        let hi = bytes.last() as int / 16;
        let lo = bytes.last() as int % 16;
        assert(0 <= hi < 16 && 0 <= lo < 16);
        assert(hex_digit(hi) != '}');
        assert(hex_digit(lo) != '}');
        let t = upper_hex(bytes.drop_last());
        let u = upper_hex(bytes);
        assert(u == t + seq![hex_digit(hi), hex_digit(lo)]);
        assert forall|i: int| 0 <= i < u.len() implies u[i] != '}' by {
            if i < t.len() {
                assert(u[i] == t[i]);
            } else if i == t.len() {
                assert(u[i] == hex_digit(hi));
            } else {
                assert(u[i] == hex_digit(lo));
            }
        }
    }
}

/// A configuration written as its JSON, a newline and the checksum line
/// reads back, once the checksum is stripped, as that JSON, whenever the
/// JSON ends with its closing brace.
pub proof fn law_checksum_stripped(json: Seq<char>)
    requires
        json.len() > 0,
        json.last() == '}',
    ensures
        without_checksum(json + seq!['\n'] + checksum_line(json)) == json,
{
    let head: Seq<char> = "# MD5 checksum "@;
    let hex = upper_hex(md5_of(vstd::utf8::encode_utf8(json)));
    let s = json + seq!['\n'] + checksum_line(json);
    let n = json.len() as int;
    reveal_strlit("# MD5 checksum ");
    assert(head.len() == 15);
    assert forall|i: int| 0 <= i < head.len() implies head[i] != '}' by {}
    lemma_hex_no_brace(md5_of(vstd::utf8::encode_utf8(json)));
    assert(checksum_line(json) == head + hex + seq!['\n']);
    assert forall|k: int| n <= k < s.len() implies s[k] != '}' by {
        if k == n {
            assert(s[k] == '\n');
        } else if k < n + 1 + 15 {
            assert(s[k] == head[k - n - 1]);
        } else if k < n + 1 + 15 + hex.len() {
            assert(s[k] == hex[k - n - 16]);
        } else {
            assert(s[k] == '\n');
        }
    }
    assert(s[n - 1] == '}');
    assert(s.contains('}'));
    let c = last_brace(s);
    assert(s[n - 1] == '}' && forall|k: int| n - 1 < k < s.len() ==> s[k] != '}');
    assert(0 <= c < s.len() && s[c] == '}' && forall|k: int| c < k < s.len() ==> s[k] != '}');
    if c < n - 1 {
        assert(s[n - 1] != '}');
    }
    assert(c == n - 1);
    assert(s.take(n) =~= json);
}

} // verus!
