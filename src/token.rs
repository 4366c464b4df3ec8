//! The bearer-token store: where the token lives and how its file reads.
use vstd::prelude::*;
use vstd::string::*;
use crate::json::text;

verus! {

/// Whether `c` is white space in the Unicode sense.
pub open spec fn is_space(c: char) -> bool {
    let u = c as u32;
    (0x09 <= u <= 0x0d) || u == 0x20 || u == 0x85 || u == 0xa0 || u == 0x1680
        || (0x2000 <= u <= 0x200a) || u == 0x2028 || u == 0x2029 || u == 0x202f
        || u == 0x205f || u == 0x3000
}

/// `s` without its trailing white space.
pub open spec fn trim_end(s: Seq<char>) -> Seq<char>
    decreases s.len(),
{
    if s.len() > 0 && is_space(s.last()) {
        trim_end(s.drop_last())
    } else {
        s
    }
}

/// The token that a token file with `contents` holds; no file holds none.
pub open spec fn stored_token(contents: Option<Seq<char>>) -> Option<Seq<char>> {
    match contents {
        Some(c) => Some(trim_end(c)),
        None => None,
    }
}

/// The path of the token file under the home directory `home`, joined as
/// a path: one separator between them, none after an empty home.
pub open spec fn token_location(home: Seq<char>) -> Seq<char> {
    if home.len() == 0 {
        ".config/mcp/mutinynet/gh-token"@
    } else if home.last() == '/' {
        home + ".config/mcp/mutinynet/gh-token"@
    } else {
        home + "/.config/mcp/mutinynet/gh-token"@
    }
}

fn char_is_space(c: char) -> (r: bool)
    ensures
        r == is_space(c),
{
    let u = c as u32;
    (0x09 <= u && u <= 0x0d) || u == 0x20 || u == 0x85 || u == 0xa0 || u == 0x1680
        || (0x2000 <= u && u <= 0x200a) || u == 0x2028 || u == 0x2029 || u == 0x202f
        || u == 0x205f || u == 0x3000
}

/// `s` without its trailing white space.
pub fn trim_trailing(s: &str) -> (r: String)
    ensures
        r@ == trim_end(s@),
{
    let n = s.unicode_len();
    let mut b: usize = n;
    proof {
        assert(s@.subrange(0, n as int) =~= s@);
    }
    while b > 0 && char_is_space(s.get_char(b - 1))
        invariant
            b <= n,
            n == s@.len(),
            trim_end(s@) == trim_end(s@.subrange(0, b as int)),
        decreases b,
    {
        proof {
            assert(s@.subrange(0, b as int).drop_last() =~= s@.subrange(0, b - 1));
        }
        b = b - 1;
    }
    proof {
        if b > 0 {
            assert(s@.subrange(0, b as int).last() == s@[b - 1]);
        }
    }
    String::from_str(s.substring_char(0, b))
}

/// The path of the token file under the home directory `home`.
pub fn get_bearer_token_location(home: &String) -> (r: String)
    ensures
        r@ == token_location(home@),
{
    let n = home.as_str().unicode_len();
    if n == 0 {
        return text(".config/mcp/mutinynet/gh-token");
    }
    let mut p = home.clone();
    if home.as_str().get_char(n - 1) == '/' {
        p.append(".config/mcp/mutinynet/gh-token");
    } else {
        p.append("/.config/mcp/mutinynet/gh-token");
    }
    p
}

/// The token that a token file with `contents` holds, trailing white space
/// dropped;
/// where there is no file there is no token.
pub fn get_bearer_token(contents: Option<&String>) -> (r: Option<String>)
    ensures
        match r {
            Some(t) => stored_token(match contents { Some(c) => Some(c@), None => None }) == Some(t@),
            None => contents is None,
        },
{
    match contents {
        Some(c) => Some(trim_trailing(c.as_str())),
        None => None,
    }
}

/// The contents of the token file that stores `token`; it replaces any earlier file.
pub fn write_bearer_token(token: &String) -> (r: String)
    ensures
        r@ == token@,
{
    token.clone()
}

/// Writing a token and reading the file back gives the token as written,
/// but for trailing white space; a token that ends in none comes back exactly.
pub proof fn lemma_token_round_trip(token: Seq<char>)
    ensures
        stored_token(Some(token)) == Some(trim_end(token)),
        (token.len() == 0 || !is_space(token.last())) ==> stored_token(Some(token)) == Some(token),
        trim_end(token) =~= token.take(trim_end(token).len() as int),
{
    lemma_trim_end_prefix(token);
}

/// Dropping trailing white space keeps a prefix of the text.
proof fn lemma_trim_end_prefix(s: Seq<char>)
    ensures
        trim_end(s).len() <= s.len(),
        trim_end(s) =~= s.take(trim_end(s).len() as int),
    decreases s.len(),
{
    if s.len() > 0 && is_space(s.last()) {
        lemma_trim_end_prefix(s.drop_last());
    }
}

} // verus!
