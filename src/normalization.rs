//! Hyphen-insensitive names and the pattern that marks a dated media file.
use vstd::prelude::*;

verus! {

/// `name` with every hyphen replaced by an underscore.
pub open spec fn normalized(name: Seq<char>) -> Seq<char> {
    name.map_values(|c: char| if c == '-' { '_' } else { c })
}

/// Whether the regular expression `pattern` is accepted by the regex crate.
pub uninterp spec fn regex_is_valid(pattern: Seq<char>) -> bool;

/// Whether the regular expression `pattern` matches somewhere in `text`.
pub uninterp spec fn regex_is_match(pattern: Seq<char>, text: Seq<char>) -> bool;

/// The pattern of a dated media file name: a prefix, an underscore, eight
/// digits, an underscore, then anything.
pub open spec fn date_pattern() -> Seq<char> {
    "^(IMG|VID|PANO)_\\d{8}_.*"@
}

/// Whether a (normalized) name has the shape of a dated media file name.
pub open spec fn is_date_pattern_name(name: Seq<char>) -> bool {
    regex_is_valid(date_pattern()) && regex_is_match(date_pattern(), name)
}

/// Relies on regex::Regex::new, which compiles `pattern` or refuses it, and on
/// Regex::is_match, which tells whether the compiled pattern matches `text`.
#[verifier::external_body]
fn regex_match(pattern: &str, text: &str) -> (r: Option<bool>)
    ensures
        r is Some <==> regex_is_valid(pattern@),
        r matches Some(b) ==> b == regex_is_match(pattern@, text@),
{
    regex::Regex::new(pattern).ok().map(|re| re.is_match(text))
}

/// Replaces every hyphen of `file_name` with an underscore.
pub fn normalize_file_name(file_name: &str) -> (r: String)
    ensures
        r@ == normalized(file_name@),
{
    let n = file_name.unicode_len();
    let mut out = String::new();
    let mut i: usize = 0;
    while i < n
        invariant
            n == file_name@.len(),
            i <= n,
            out@ == normalized(file_name@.subrange(0, i as int)),
        decreases n - i,
    {
        let c = file_name.get_char(i);
        let ghost old_out = out@;
        if c == '-' {
            proof {
                reveal_strlit("_");
            }
            out.append("_");
            assert(out@ == old_out + seq!['_']);
        } else {
            let one = file_name.substring_char(i, i + 1);
            assert(one@ =~= seq![c]);
            out.append(one);
        }
        proof {
            assert(file_name@.subrange(0, i + 1) =~= file_name@.subrange(0, i as int).push(c));
            assert(normalized(file_name@.subrange(0, i + 1)) =~= normalized(
                file_name@.subrange(0, i as int),
            ).push(if c == '-' { '_' } else { c }));
        }
        i = i + 1;
    }
    proof {
        assert(file_name@.subrange(0, n as int) =~= file_name@);
    }
    out
}

/// Whether a normalized name has the shape of a dated media file name.
pub fn is_normalized_date_pattern_match(file_name: &str) -> (r: bool)
    ensures
        r == is_date_pattern_name(file_name@),
{
    match regex_match("^(IMG|VID|PANO)_\\d{8}_.*", file_name) {
        Some(b) => b,
        None => false,
    }
}

} // verus!
