//! Attribute model: `key:value` tokens parsed into key/value pairs.

use vstd::prelude::*;

verus! {

/// A command-line attribute: an ordered pair of a key and a value,
/// produced by splitting a raw token on its first `:`. A parsed attribute
/// always carries a non-empty key.
#[derive(Debug, Clone)]
pub struct Attribute {
    pub key: String,
    pub value: String,
}

/// Position of the first `:` in `s`, if any.
pub open spec fn first_colon(s: Seq<char>) -> Option<int>
    decreases s.len(),
{
    if s.len() == 0 {
        None
    } else if s[0] == ':' {
        Some(0int)
    } else {
        match first_colon(s.drop_first()) {
            Some(i) => Some(i + 1),
            None => None,
        }
    }
}

/// If `s[i]` is the first `:` of `s`, then `first_colon` finds exactly it.
proof fn lemma_first_colon_at(s: Seq<char>, i: int)
    requires
        0 <= i < s.len(),
        s[i] == ':',
        forall|j: int| 0 <= j < i ==> s[j] != ':',
    ensures
        first_colon(s) == Some(i),
    decreases i,
{
    if i == 0 {
    } else {
        assert(s.drop_first()[i - 1] == s[i]);
        assert(forall|j: int| 0 <= j < i - 1 ==> s.drop_first()[j] == s[j + 1]);
        lemma_first_colon_at(s.drop_first(), i - 1);
    }
}

/// A string without any `:` has no first colon.
proof fn lemma_first_colon_none(s: Seq<char>)
    requires
        forall|j: int| 0 <= j < s.len() ==> s[j] != ':',
    ensures
        first_colon(s) is None,
    decreases s.len(),
{
    if s.len() == 0 {
    } else {
        assert(forall|j: int| 0 <= j < s.len() - 1 ==> s.drop_first()[j] == s[j + 1]);
        lemma_first_colon_none(s.drop_first());
    }
}

/// The position `first_colon` returns really is the first colon.
pub proof fn lemma_first_colon_is_first(s: Seq<char>)
    ensures
        match first_colon(s) {
            Some(i) => 0 <= i < s.len() && s[i] == ':' && forall|j: int| 0 <= j < i ==> s[j] != ':',
            None => forall|j: int| 0 <= j < s.len() ==> s[j] != ':',
        },
    decreases s.len(),
{
    if s.len() == 0 {
    } else if s[0] == ':' {
    } else {
        lemma_first_colon_is_first(s.drop_first());
        assert(forall|j: int| 0 <= j < s.len() - 1 ==> s.drop_first()[j] == s[j + 1]);
        match first_colon(s.drop_first()) {
            Some(i) => {
                assert(s[i + 1] == s.drop_first()[i]);
                assert(forall|j: int| 1 <= j < i + 1 ==> s[j] == s.drop_first()[j - 1]);
            },
            None => {
                assert(forall|j: int| 1 <= j < s.len() ==> s[j] == s.drop_first()[j - 1]);
            },
        }
    }
}

/// What a successful parse of `s` yields: the key is everything before the
/// first colon, the value everything after it, colons in the value kept.
pub open spec fn parse_ok(s: Seq<char>, attr: Attribute) -> bool {
    match first_colon(s) {
        Some(i) => attr.key@ == s.subrange(0, i) && attr.value@ == s.subrange(i + 1, s.len() as int),
        None => false,
    }
}

/// Splits a raw token on its first `:` into an [`Attribute`]; a token
/// without any `:`, or with an empty key (a leading `:`), is rejected.
/// No escaping, no trimming.
pub fn parse(s: &str) -> (r: Result<Attribute, String>)
    ensures
        r is Ok <==> (first_colon(s@) is Some && first_colon(s@) != Some(0int)),
        match r {
            Ok(attr) => parse_ok(s@, attr) && attr.key@.len() > 0,
            Err(msg) => msg@ == "expect key:value format for attribute"@,
        },
{
    let len = s.unicode_len();
    let mut i: usize = 0;
    while i < len
        invariant
            i <= len,
            len == s@.len(),
            forall|j: int| 0 <= j < i ==> s@[j] != ':',
        decreases len - i,
    {
        if s.get_char(i) == ':' {
            proof {
                lemma_first_colon_at(s@, i as int);
            }
            if i == 0 {
                return Err(String::from_str("expect key:value format for attribute"));
            }
            let key = s.substring_char(0, i);
            let value = s.substring_char(i + 1, len);
            return Ok(Attribute { key: String::from_str(key), value: String::from_str(value) });
        }
        i += 1;
    }
    proof {
        lemma_first_colon_none(s@);
    }
    Err(String::from_str("expect key:value format for attribute"))
}

/// Parses one `-r`/`--resources` or `--attributes` occurrence; each
/// occurrence is handled independently and accumulated in order.
pub fn parse_attribute(s: &str) -> (r: Result<Attribute, String>)
    ensures
        r is Ok <==> (first_colon(s@) is Some && first_colon(s@) != Some(0int)),
        match r {
            Ok(attr) => parse_ok(s@, attr) && attr.key@.len() > 0,
            Err(msg) => msg@ == "expect key:value format for attribute"@,
        },
{
    parse(s)
}

} // verus!
