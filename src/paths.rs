use vstd::prelude::*;
use vstd::string::*;

use crate::text::push_char;

verus! {

/// The fixed location of the cache of fetched sources, before expansion.
pub const CACHE_PATH: &'static str = "~/.cache/aura";

/// True when `s` begins with the home marker `~/`.
pub open spec fn begins_at_home(s: Seq<char>) -> bool {
    s.len() >= 2 && s[0] == '~' && s[1] == '/'
}

/// `p` placed under `base`: an absolute `p` stands alone, and a separator is put
/// between the two unless `base` is empty or already ends with one.
pub open spec fn joined(base: Seq<char>, p: Seq<char>) -> Seq<char> {
    if p.len() > 0 && p[0] == '/' {
        p
    } else if base.len() == 0 || base.last() == '/' {
        base + p
    } else {
        base + seq!['/'] + p
    }
}

/// The cache path `path` with its leading home marker `~/` replaced by the home
/// directory `home`; the rest is kept as it is. Only the leading form is
/// recognised: any other path, a bare `~`, `~user/...` or a `~/` further in,
/// expands to the empty path.
pub open spec fn expanded(path: Seq<char>, home: Seq<char>) -> Seq<char> {
    if begins_at_home(path) {
        joined(home, path.subrange(2, path.len() as int))
    } else {
        Seq::empty()
    }
}

/// A cache path that begins with `~/` names the rest of it under the home
/// directory, `<home>/<rest>`, whatever the rest holds, and a path without a
/// leading `~/` expands to the empty path. The rest is taken to be relative and
/// the home directory a non-empty path without a trailing separator, as for any
/// directory placed under another.
pub proof fn lemma_cache_path_expansion(path: Seq<char>, home: Seq<char>)
    ensures
        !begins_at_home(path) ==> expanded(path, home) == Seq::<char>::empty(),
        ({
            let rest = path.subrange(2, path.len() as int);
            begins_at_home(path) && (rest.len() == 0 || rest[0] != '/') && home.len() > 0
                && home.last() != '/' ==> expanded(path, home) == home + seq!['/'] + rest
        }),
{
}

/// Whether `s` begins with the home marker `~/`.
pub fn starts_at_home(s: &str) -> (r: bool)
    ensures
        r == begins_at_home(s@),
{
    let n = s.unicode_len();
    n >= 2 && s.get_char(0) == '~' && s.get_char(1) == '/'
}

/// The path `p` placed under the directory `base`.
pub fn join_path(base: &str, p: &str) -> (r: String)
    ensures
        r@ == joined(base@, p@),
{
    let bn = base.unicode_len();
    let pn = p.unicode_len();
    if pn > 0 && p.get_char(0) == '/' {
        return String::from_str(p);
    }
    let mut r = String::from_str(base);
    if bn > 0 && base.get_char(bn - 1) != '/' {
        push_char(&mut r, '/');
    }
    r.append(p);
    r
}

/// The cache path `cache_path` with its leading `~/` replaced by the home
/// directory `home`; empty where it does not begin with `~/`.
pub fn expand_cache_path(cache_path: &str, home: &str) -> (r: String)
    ensures
        r@ == expanded(cache_path@, home@),
{
    if starts_at_home(cache_path) {
        let n = cache_path.unicode_len();
        let rest = cache_path.substring_char(2, n);
        join_path(home, rest)
    } else {
        String::new()
    }
}

} // verus!
