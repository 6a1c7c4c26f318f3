//! Regular-expression searches, performed by the `regex` crate.
//!
//! Positions are character positions in the searched text.
use vstd::prelude::*;

verus! {

/// Characters that `regex::escape` prefixes with a backslash.
pub open spec fn is_meta(c: char) -> bool {
    ||| c == '\\'
    ||| c == '.'
    ||| c == '+'
    ||| c == '*'
    ||| c == '?'
    ||| c == '('
    ||| c == ')'
    ||| c == '|'
    ||| c == '['
    ||| c == ']'
    ||| c == '{'
    ||| c == '}'
    ||| c == '^'
    ||| c == '$'
    ||| c == '#'
    ||| c == '&'
    ||| c == '-'
    ||| c == '~'
}

pub open spec fn escape_spec(s: Seq<char>) -> Seq<char>
    decreases s.len(),
{
    if s.len() == 0 {
        Seq::empty()
    } else {
        escape_spec(s.drop_last()) + if is_meta(s.last()) {
            seq!['\\', s.last()]
        } else {
            seq![s.last()]
        }
    }
}

/// `regex::escape`: every meta character of `s` is prefixed with a
/// backslash, as the crate's `escape_into` loop does.
#[verifier::external_body]
pub(crate) fn regex_escape(s: &str) -> (r: String)
    ensures
        r@ == escape_spec(s@),
{
    regex::escape(s)
}

/// Whether `regex::Regex::new` accepts the pattern.
pub uninterp spec fn regex_compiles(pattern: Seq<char>) -> bool;

/// Start and end of the leftmost-first match of `pattern` in `text`, as
/// `regex::Regex::find` reports it.
pub uninterp spec fn regex_first_match(pattern: Seq<char>, text: Seq<char>) -> Option<(int, int)>;

pub open spec fn match_view(m: Option<(usize, usize)>) -> Option<(int, int)> {
    match m {
        Some(p) => Some((p.0 as int, p.1 as int)),
        None => None,
    }
}

/// `regex::Regex::new(pattern)` followed by `find(text)`. The contract says
/// that compilation depends on the pattern alone, that the match is the
/// crate's first match (a name, not a definition), and that a match lies
/// within the text. The byte offsets that the crate reports are turned into
/// character positions.
#[verifier::external_body]
pub(crate) fn regex_find(pattern: &str, text: &str) -> (r: Result<Option<(usize, usize)>, ()>)
    ensures
        r is Ok <==> regex_compiles(pattern@),
        r matches Ok(m) ==> match_view(m) == regex_first_match(pattern@, text@),
        r matches Ok(Some(p)) ==> p.0 <= p.1 <= text@.len(),
{
    match regex::Regex::new(pattern) {
        Ok(re) => match re.find(text) {
            Some(m) => Ok(
                Some((text[..m.start()].chars().count(), text[..m.end()].chars().count())),
            ),
            None => Ok(None),
        },
        Err(_) => Err(()),
    }
}

/// What `regex::Regex::replace_all` returns for `text` and the replacement
/// `rep` (in which `$` group references are expanded).
pub uninterp spec fn regex_replace_all_spec(pattern: Seq<char>, text: Seq<char>, rep: Seq<char>) -> Seq<char>;

/// `regex::Regex::new(pattern)` followed by `replace_all(text, rep)`. Besides
/// naming the result, the contract states the crate's documented promise
/// that a text without any match comes back unchanged.
#[verifier::external_body]
pub(crate) fn regex_replace_all(pattern: &str, text: &str, rep: &str) -> (r: Result<String, ()>)
    ensures
        r is Ok <==> regex_compiles(pattern@),
        r matches Ok(s) ==> s@ == regex_replace_all_spec(pattern@, text@, rep@),
        r matches Ok(s) ==> (regex_first_match(pattern@, text@) is None ==> s@ == text@),
{
    match regex::Regex::new(pattern) {
        Ok(re) => Ok(re.replace_all(text, rep).into_owned()),
        Err(_) => Err(()),
    }
}

/// What `regex::Regex::replace` returns for `text` and the replacement `rep`
/// (in which `$` group references are expanded): only the leftmost-first
/// match is replaced.
pub uninterp spec fn regex_replace_first_spec(pattern: Seq<char>, text: Seq<char>, rep: Seq<char>) -> Seq<char>;

/// `regex::Regex::new(pattern)` followed by `replace(text, rep)`. Besides
/// naming the result, the contract states the crate's documented behaviour:
/// without a match the text comes back unchanged, and a replacement without
/// `$` takes the place of the first match as it stands.
#[verifier::external_body]
pub(crate) fn regex_replace_first(pattern: &str, text: &str, rep: &str) -> (r: Result<String, ()>)
    ensures
        r is Ok <==> regex_compiles(pattern@),
        r matches Ok(s) ==> s@ == regex_replace_first_spec(pattern@, text@, rep@),
        r matches Ok(s) ==> (regex_first_match(pattern@, text@) is None ==> s@ == text@),
        r matches Ok(s) ==> (!rep@.contains('$') ==> match regex_first_match(pattern@, text@) {
            Some(m) => s@ == text@.take(m.0) + rep@ + text@.skip(m.1),
            None => true,
        }),
{
    match regex::Regex::new(pattern) {
        Ok(re) => Ok(re.replace(text, rep).into_owned()),
        Err(_) => Err(()),
    }
}

/// The whole text and the first capture group of each successive match of
/// `pattern` in `text`, as `regex::Regex::captures_iter` finds them; the
/// group is empty where it did not take part.
pub uninterp spec fn regex_captures_spec(pattern: Seq<char>, text: Seq<char>) -> Seq<(Seq<char>, Seq<char>)>;

pub open spec fn capture_views(v: Seq<(String, String)>) -> Seq<(Seq<char>, Seq<char>)> {
    v.map_values(|c: (String, String)| (c.0@, c.1@))
}

/// `regex::Regex::new(pattern)` followed by `captures_iter(text)`, keeping
/// the whole match and the first group of each. The contract names the
/// result and says that compilation depends on the pattern alone.
#[verifier::external_body]
pub(crate) fn regex_captures(pattern: &str, text: &str) -> (r: Result<Vec<(String, String)>, ()>)
    ensures
        r is Ok <==> regex_compiles(pattern@),
        r matches Ok(v) ==> capture_views(v@) == regex_captures_spec(pattern@, text@),
{
    match regex::Regex::new(pattern) {
        Ok(re) => Ok(
            re.captures_iter(text).map(
                |c| (c[0].to_string(), c.get(1).map_or(String::new(), |m| m.as_str().to_string())),
            ).collect(),
        ),
        Err(_) => Err(()),
    }
}

/// The first capture group of each successive match of `pattern` in `text`.
pub open spec fn regex_group1_spec(pattern: Seq<char>, text: Seq<char>) -> Seq<Seq<char>> {
    regex_captures_spec(pattern, text).map_values(|c: (Seq<char>, Seq<char>)| c.1)
}

/// The first capture group of each match of `pattern` in `text`.
pub(crate) fn regex_group1_all(pattern: &str, text: &str) -> (r: Result<Vec<String>, ()>)
    ensures
        r is Ok <==> regex_compiles(pattern@),
        r matches Ok(v) ==> crate::text::views(v@) == regex_group1_spec(pattern@, text@),
{
    let caps = regex_captures(pattern, text)?;
    let ghost cv = capture_views(caps@);
    let mut out: Vec<String> = Vec::new();
    let mut i: usize = 0;
    while i < caps.len()
        invariant
            i <= caps@.len(),
            cv == capture_views(caps@),
            crate::text::views(out@) == cv.take(i as int).map_values(|c: (Seq<char>, Seq<char>)| c.1),
        decreases caps.len() - i,
    {
        let g = crate::text::copy_str(caps[i].1.as_str());
        let ghost before = out@;
        out.push(g);
        proof {
            assert(crate::text::views(out@) =~= crate::text::views(before).push(g@));
            assert(cv.take(i + 1) =~= cv.take(i as int).push(cv[i as int]));
            assert(crate::text::views(out@) =~= cv.take(i + 1).map_values(
                |c: (Seq<char>, Seq<char>)| c.1,
            ));
        }
        i = i + 1;
    }
    assert(cv.take(caps@.len() as int) =~= cv);
    Ok(out)
}

} // verus!
