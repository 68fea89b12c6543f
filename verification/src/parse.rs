//! Character-level scanning of a request: verb tests and first-occurrence
//! searches for the separators the protocol is built from.

use vstd::prelude::*;
use vstd::string::*;

verus! {

/// The blank-line separator `\r\n\r\n` stands at position `i`.
pub open spec fn is_sep_at(s: Seq<char>, i: int) -> bool {
    &&& i + 4 <= s.len()
    &&& s[i] == '\r'
    &&& s[i + 1] == '\n'
    &&& s[i + 2] == '\r'
    &&& s[i + 3] == '\n'
}

/// The first position at or after `from` where the blank-line separator
/// stands, if any.
pub open spec fn first_sep_from(s: Seq<char>, from: int) -> Option<int>
    decreases s.len() - from,
{
    if from + 4 > s.len() {
        None
    } else if is_sep_at(s, from) {
        Some(from)
    } else {
        first_sep_from(s, from + 1)
    }
}

/// The first position at or after `from` holding the character `c`, if any.
pub open spec fn first_char_from(s: Seq<char>, from: int, c: char) -> Option<int>
    decreases s.len() - from,
{
    if from >= s.len() {
        None
    } else if s[from] == c {
        Some(from)
    } else {
        first_char_from(s, from + 1, c)
    }
}

pub proof fn lemma_first_sep_from(s: Seq<char>, from: int)
    requires
        0 <= from,
    ensures
        match first_sep_from(s, from) {
            Some(i) => from <= i && is_sep_at(s, i),
            None => true,
        },
    decreases s.len() - from,
{
    if from + 4 > s.len() {
    } else if is_sep_at(s, from) {
    } else {
        lemma_first_sep_from(s, from + 1);
    }
}

pub proof fn lemma_first_char_from(s: Seq<char>, from: int, c: char)
    requires
        0 <= from,
    ensures
        match first_char_from(s, from, c) {
            Some(i) => from <= i < s.len() && s[i] == c,
            None => true,
        },
    decreases s.len() - from,
{
    if from >= s.len() {
    } else if s[from] == c {
    } else {
        lemma_first_char_from(s, from + 1, c);
    }
}

/// The request names the PUT verb: its first three characters are `PUT`.
pub open spec fn spec_is_put(req: Seq<char>) -> bool {
    req.len() >= 3 && req[0] == 'P' && req[1] == 'U' && req[2] == 'T'
}

/// The request names the GET verb: its first three characters are `GET`.
pub open spec fn spec_is_get(req: Seq<char>) -> bool {
    req.len() >= 3 && req[0] == 'G' && req[1] == 'E' && req[2] == 'T'
}

pub fn is_put(req: &str) -> (r: bool)
    ensures
        r == spec_is_put(req@),
{
    let n = req.unicode_len();
    n >= 3 && req.get_char(0) == 'P' && req.get_char(1) == 'U' && req.get_char(2) == 'T'
}

pub fn is_get(req: &str) -> (r: bool)
    ensures
        r == spec_is_get(req@),
{
    let n = req.unicode_len();
    n >= 3 && req.get_char(0) == 'G' && req.get_char(1) == 'E' && req.get_char(2) == 'T'
}

/// Find the first blank-line separator at or after `from`.
pub fn find_sep(s: &str, from: usize) -> (r: Option<usize>)
    requires
        from as int <= s@.len(),
    ensures
        ({
            let f = first_sep_from(s@, from as int);
            match r {
                Some(i) => f == Some(i as int),
                None => f is None,
            }
        }),
{
    let n = s.unicode_len();
    let mut i = from;
    while n >= 4 && i <= n - 4
        invariant
            n == s@.len(),
            from <= i <= n,
            first_sep_from(s@, from as int) == first_sep_from(s@, i as int),
        decreases n - i,
    {
        let c0 = s.get_char(i);
        let c1 = s.get_char(i + 1);
        let c2 = s.get_char(i + 2);
        let c3 = s.get_char(i + 3);
        if c0 == '\r' && c1 == '\n' && c2 == '\r' && c3 == '\n' {
            proof {
                assert(is_sep_at(s@, i as int));
            }
            return Some(i);
        }
        proof {
            assert(!is_sep_at(s@, i as int));
            assert(first_sep_from(s@, i as int) == first_sep_from(s@, i as int + 1));
        }
        i = i + 1;
    }
    proof {
        assert(first_sep_from(s@, i as int) is None);
    }
    None
}

/// Find the first occurrence of `c` at or after `from`.
pub fn find_char_from(s: &str, from: usize, c: char) -> (r: Option<usize>)
    requires
        from as int <= s@.len(),
    ensures
        ({
            let f = first_char_from(s@, from as int, c);
            match r {
                Some(i) => f == Some(i as int),
                None => f is None,
            }
        }),
{
    let n = s.unicode_len();
    let mut i = from;
    while i < n
        invariant
            n == s@.len(),
            from <= i <= n,
            first_char_from(s@, from as int, c) == first_char_from(s@, i as int, c),
        decreases n - i,
    {
        if s.get_char(i) == c {
            return Some(i);
        }
        proof {
            assert(first_char_from(s@, i as int, c) == first_char_from(s@, i as int + 1, c));
        }
        i = i + 1;
    }
    None
}

} // verus!
