//! Code signatures: text patterns such as `"48 89 ? 24"`, in which each token is a
//! byte in hex or a `?` wildcard, and their search in the bytes of a loaded module.
use vstd::prelude::*;

verus! {

/// `b` is an ASCII hex digit.
pub open spec fn is_hex_digit(b: u8) -> bool {
    (48 <= b <= 57) || (65 <= b <= 70) || (97 <= b <= 102)
}

/// The value of the hex digit `b`.
pub open spec fn hex_value(b: u8) -> int {
    if 48 <= b <= 57 {
        b - 48
    } else if 65 <= b <= 70 {
        b - 55
    } else {
        b - 87
    }
}

/// The token that starts at `i`, with its width in bytes: `?` is a wildcard, two hex
/// digits are a byte.
pub open spec fn token_at(s: Seq<u8>, i: int) -> Option<(Option<u8>, int)> {
    if 0 <= i < s.len() && s[i] == 63 {
        Some((None, 1))
    } else if 0 <= i && i + 1 < s.len() && is_hex_digit(s[i]) && is_hex_digit(s[i + 1]) {
        Some((Some((16 * hex_value(s[i]) + hex_value(s[i + 1])) as u8), 2))
    } else {
        None
    }
}

/// The pattern of the text from `i` on: one or more tokens, each pair separated by a
/// single space, and nothing else.
pub open spec fn parse_from(s: Seq<u8>, i: int) -> Option<Seq<Option<u8>>>
    decreases s.len() - i,
{
    match token_at(s, i) {
        None => None,
        Some((t, w)) => if i + w == s.len() {
            Some(seq![t])
        } else if i + w < s.len() && s[i + w] == 32 {
            match parse_from(s, i + w + 1) {
                Some(rest) => Some(seq![t] + rest),
                None => None,
            }
        } else {
            None
        },
    }
}

/// The pattern that a signature text denotes, if it is well formed.
pub open spec fn parse_spec(s: Seq<u8>) -> Option<Seq<Option<u8>>> {
    parse_from(s, 0)
}

/// `pattern` matches `bytes` at offset `i`: every non-wildcard equals the byte under it.
pub open spec fn matches_at(pattern: Seq<Option<u8>>, bytes: Seq<u8>, i: int) -> bool {
    &&& 0 <= i
    &&& i + pattern.len() <= bytes.len()
    &&& forall|j: int|
        0 <= j < pattern.len() ==> (#[trigger] pattern[j] is None || pattern[j] == Some(
            bytes[i + j],
        ))
}

/// `i` is the lowest offset at which `pattern` matches `bytes`.
pub open spec fn is_first_match(pattern: Seq<Option<u8>>, bytes: Seq<u8>, i: int) -> bool {
    &&& matches_at(pattern, bytes, i)
    &&& forall|k: int| 0 <= k < i ==> !matches_at(pattern, bytes, k)
}

/// `pattern` matches `bytes` nowhere.
pub open spec fn no_match(pattern: Seq<Option<u8>>, bytes: Seq<u8>) -> bool {
    forall|k: int| !matches_at(pattern, bytes, k)
}

/// Hex digits have their standard values, the same in either case: `'0'..='9'` are
/// 0 to 9, `'A'..='F'` and `'a'..='f'` are 10 to 15.
pub proof fn law_hex_digit_values(k: int)
    ensures
        0 <= k < 10 ==> is_hex_digit((48 + k) as u8) && hex_value((48 + k) as u8) == k,
        0 <= k < 6 ==> is_hex_digit((65 + k) as u8) && hex_value((65 + k) as u8) == 10 + k,
        0 <= k < 6 ==> is_hex_digit((97 + k) as u8) && hex_value((97 + k) as u8) == 10 + k,
        0 <= k < 6 ==> hex_value((65 + k) as u8) == hex_value((97 + k) as u8),
{
}

/// Every hex digit denotes one of the sixteen nibble values.
pub proof fn law_hex_value_range(b: u8)
    requires
        is_hex_digit(b),
    ensures
        0 <= hex_value(b) < 16,
{
}

/// A two-digit token is the byte whose high nibble is the first digit and whose low
/// nibble is the second; a `?` token is a wildcard one byte wide.
pub proof fn law_token_nibbles(s: Seq<u8>, i: int)
    requires
        token_at(s, i) is Some,
    ensures
        token_at(s, i).unwrap().0 matches Some(b) ==> {
            &&& token_at(s, i).unwrap().1 == 2
            &&& b / 16 == hex_value(s[i])
            &&& b % 16 == hex_value(s[i + 1])
        },
        token_at(s, i).unwrap().0 is None ==> s[i] == 63 && token_at(s, i).unwrap().1 == 1,
{
    if let Some(b) = token_at(s, i).unwrap().0 {
        let hi = hex_value(s[i]);
        let lo = hex_value(s[i + 1]);
        assert(0 <= hi < 16 && 0 <= lo < 16);
        assert(((16 * hi + lo) as u8) == 16 * hi + lo);
        assert((16 * hi + lo) / 16 == hi && (16 * hi + lo) % 16 == lo) by (nonlinear_arith)
            requires
                0 <= hi < 16,
                0 <= lo < 16,
        ;
    }
}

/// `sigscan::scan`: slides a window of the pattern's length over the bytes from the
/// start and returns the offset of the first window in which every non-wildcard byte
/// of the pattern equals the byte under it, or `None` when no window matches (also
/// when the bytes are shorter than the pattern). It panics on an empty pattern, which
/// `requires` leaves out.
#[verifier::external_body]
fn scan_bytes(pattern: &[Option<u8>], bytes: &[u8]) -> (found: Option<usize>)
    requires
        pattern@.len() > 0,
    ensures
        found matches Some(i) ==> is_first_match(pattern@, bytes@, i as int),
        found is None ==> no_match(pattern@, bytes@),
{
    sigscan::scan(pattern, bytes)
}

/// Why a signature could not be located.
#[derive(PartialEq, Eq, Structural, Clone, Copy, Debug)]
pub enum SignatureError {
    /// The signature text is not a well-formed pattern.
    Malformed,
    /// The pattern matches nowhere in the module image.
    NotFound,
}

/// The value of an ASCII hex digit, or `None` for any other byte.
pub fn hex_digit_value(b: u8) -> (v: Option<u8>)
    ensures
        v is Some <==> is_hex_digit(b),
        v matches Some(x) ==> x == hex_value(b),
{
    if 48 <= b && b <= 57 {
        Some(b - 48)
    } else if 65 <= b && b <= 70 {
        Some(b - 55)
    } else if 97 <= b && b <= 102 {
        Some(b - 87)
    } else {
        None
    }
}

/// Prepends `prefix` to a parse result.
pub open spec fn prepend(
    prefix: Seq<Option<u8>>,
    r: Option<Seq<Option<u8>>>,
) -> Option<Seq<Option<u8>>> {
    match r {
        Some(rest) => Some(prefix + rest),
        None => None,
    }
}

/// Parses a signature text into its pattern.
pub fn parse_signature(text: &[u8]) -> (pattern: Option<Vec<Option<u8>>>)
    ensures
        pattern is Some <==> parse_spec(text@) is Some,
        pattern matches Some(p) ==> parse_spec(text@) == Some(p@),
{
    let ghost s = text@;
    let mut acc: Vec<Option<u8>> = Vec::new();
    let mut i: usize = 0;
    assert(prepend(acc@, parse_from(s, 0)) == parse_from(s, 0)) by {
        if let Some(r) = parse_from(s, 0) {
            assert(acc@ + r =~= r);
        }
    }
    loop
        invariant
            s == text@,
            i <= text@.len(),
            parse_spec(s) == prepend(acc@, parse_from(s, i as int)),
        decreases text@.len() - i,
    {
        let tok: Option<u8>;
        let w: usize;
        if i < text.len() && text[i] == 63 {
            tok = None;
            w = 1;
        } else if text.len() - i >= 2 {
            let hi = hex_digit_value(text[i]);
            let lo = hex_digit_value(text[i + 1]);
            match (hi, lo) {
                (Some(h), Some(l)) => {
                    assert((16 * hex_value(text@[i as int]) + hex_value(text@[i + 1])) < 256);
                    tok = Some(16 * h + l);
                    w = 2;
                },
                _ => {
                    return None;
                },
            }
        } else {
            return None;
        }
        assert(token_at(s, i as int) == Some((tok, w as int)));
        let ghost t_seq = seq![tok];
        if i + w == text.len() {
            let ghost before = acc@;
            acc.push(tok);
            assert(acc@ =~= before + t_seq);
            return Some(acc);
        } else if text[i + w] == 32 {
            let ghost before = acc@;
            acc.push(tok);
            proof {
                assert(acc@ =~= before + t_seq);
                match parse_from(s, i + w + 1) {
                    Some(rest) => {
                        assert(before + (t_seq + rest) =~= (before + t_seq) + rest);
                    },
                    None => {},
                }
            }
            i = i + w + 1;
        } else {
            return None;
        }
    }
}

/// Every pattern that a well-formed signature text denotes has at least one token.
pub proof fn lemma_parsed_nonempty(s: Seq<u8>, i: int)
    requires
        parse_from(s, i) is Some,
    ensures
        parse_from(s, i).unwrap().len() > 0,
    decreases s.len() - i,
{
}

/// The number of spaces in `s` from position `i` on.
pub open spec fn spaces_from(s: Seq<u8>, i: int) -> nat
    decreases s.len() - i,
{
    if i < 0 || i >= s.len() {
        0
    } else {
        (if s[i] == 32 { 1nat } else { 0nat }) + spaces_from(s, i + 1)
    }
}

/// A well-formed signature has one token per space-separated field: its pattern is one
/// longer than the number of spaces in the text, and the text neither starts nor ends
/// with a space.
pub proof fn law_one_token_per_field(s: Seq<u8>, i: int)
    requires
        0 <= i,
        parse_from(s, i) is Some,
    ensures
        parse_from(s, i).unwrap().len() == spaces_from(s, i) + 1,
        s[i] != 32,
        s.last() != 32,
    decreases s.len() - i,
{
    let (t, w) = token_at(s, i).unwrap();
    assert(s[i] != 32);
    assert(spaces_from(s, i) == spaces_from(s, i + w)) by {
        if w == 2 {
            assert(s[i + 1] != 32);
            assert(spaces_from(s, i + 1) == spaces_from(s, i + 2));
        }
    }
    if i + w == s.len() {
        assert(s.last() == s[i + w - 1]);
    } else {
        law_one_token_per_field(s, i + w + 1);
        assert(spaces_from(s, i + w) == 1 + spaces_from(s, i + w + 1));
    }
}

/// Finds where the signature `text` first matches in `image`, the bytes of a loaded
/// module: the offset of the match, or why there is none.
pub fn find_signature(text: &[u8], image: &[u8]) -> (found: Result<usize, SignatureError>)
    ensures
        match found {
            Ok(off) => parse_spec(text@) matches Some(p) && is_first_match(p, image@, off as int),
            Err(SignatureError::Malformed) => parse_spec(text@) is None,
            Err(SignatureError::NotFound) => parse_spec(text@) matches Some(p) && no_match(
                p,
                image@,
            ),
        },
{
    match parse_signature(text) {
        None => Err(SignatureError::Malformed),
        Some(pattern) => {
            proof {
                lemma_parsed_nonempty(text@, 0);
            }
            match scan_bytes(pattern.as_slice(), image) {
                Some(off) => {
                    proof {
                        let p = pattern@;
                        if no_match(p, image@) {
                            assert(!matches_at(p, image@, off as int));
                        }
                    }
                    Ok(off)
                },
                None => Err(SignatureError::NotFound),
            }
        },
    }
}

} // verus!
