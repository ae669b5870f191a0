//! Naming of the on-disk cache of map-query responses: where the response
//! to a query key is stored.

use std::path::PathBuf;

use vstd::prelude::*;
use vstd::string::StringSliceAdditionalSpecFns;

verus! {

/// What `char::is_alphanumeric` returns for `c` (Unicode `Alphabetic` or
/// `Numeric`).
pub uninterp spec fn unicode_alphanumeric(c: char) -> bool;

/// Whether `c` is alphanumeric, by `char::is_alphanumeric`.
///
/// Trusted: the result is `unicode_alphanumeric(c)`; of ASCII characters,
/// exactly the letters and digits are alphanumeric. The Unicode tables for
/// other characters are not restated.
#[verifier::external_body]
fn is_alphanumeric(c: char) -> (r: bool)
    ensures
        r == unicode_alphanumeric(c),
        (c as u32) < 128 ==> (r <==> (('a' <= c && c <= 'z') || ('A' <= c && c <= 'Z') || ('0' <= c
            && c <= '9'))),
{
    c.is_alphanumeric()
}

/// Whether a key character is kept as it is in a cache file name.
pub open spec fn key_char_kept(c: char) -> bool {
    unicode_alphanumeric(c) || c == '_' || c == '-'
}

/// A key character as it appears in a cache file name.
pub open spec fn sanitized_char(c: char) -> char {
    if key_char_kept(c) {
        c
    } else {
        '_'
    }
}

/// The file name under which the response for `key` is cached: the key
/// with every character that is not alphanumeric, `_` or `-` replaced by
/// `_`, then `.json`.
pub open spec fn spec_cache_file_name(key: Seq<char>) -> Seq<char> {
    key.map_values(|c: char| sanitized_char(c)) + ".json"@
}

/// File-based cache of map-query responses, kept in one directory.
#[derive(Debug)]
pub struct ResponseCache {
    /// Directory where cached responses are stored.
    cache_dir: PathBuf,
}

impl ResponseCache {
    /// A cache kept in `cache_dir` (which the caller has created).
    pub fn with_dir(cache_dir: PathBuf) -> (r: Self)
        ensures
            r.dir() == cache_dir,
    {
        ResponseCache { cache_dir }
    }

    /// The directory of the cache.
    pub closed spec fn dir(&self) -> PathBuf {
        self.cache_dir
    }

    /// The directory of the cache.
    pub fn cache_dir(&self) -> (r: &PathBuf)
        ensures
            *r == self.dir(),
    {
        &self.cache_dir
    }

    /// The file name under which the response for `key` is cached.
    pub fn file_name(key: &str) -> (r: String)
        ensures
            r@ == spec_cache_file_name(key@),
    {
        let n = key.unicode_len();
        let mut r = String::new();
        let mut i: usize = 0;
        while i < n
            invariant
                n == key@.len(),
                i <= n,
                r@ == key@.take(i as int).map_values(|c: char| sanitized_char(c)),
            decreases n - i,
        {
            let c = key.get_char(i);
            if is_alphanumeric(c) || c == '_' || c == '-' {
                let one = key.substring_char(i, i + 1);
                assert(one@ == seq![c]);
                r.append(one);
            } else {
                r.append("_");
                proof {
                    reveal_strlit("_");
                }
            }
            assert(key@.take(i + 1).map_values(|c: char| sanitized_char(c)) == key@.take(
                i as int,
            ).map_values(|c: char| sanitized_char(c)).push(sanitized_char(c)));
            i = i + 1;
        }
        assert(key@.take(n as int) == key@);
        r.append(".json");
        r
    }
}

/// Law: a cache file name is the key's length plus five characters, ends
/// in `.json`, and its stem holds only alphanumeric characters, `_` and `-`.
pub proof fn law_cache_file_name_safe(key: Seq<char>)
    ensures
        spec_cache_file_name(key).len() == key.len() + 5,
        spec_cache_file_name(key).skip(key.len() as int) == ".json"@,
        forall|i: int|
            0 <= i < key.len() ==> key_char_kept(#[trigger] spec_cache_file_name(key)[i]),
{
    let f = spec_cache_file_name(key);
    reveal_strlit(".json");
    assert(f.skip(key.len() as int) == ".json"@);
    assert forall|i: int| 0 <= i < key.len() implies key_char_kept(
        #[trigger] spec_cache_file_name(key)[i],
    ) by {
        assert(f[i] == sanitized_char(key[i]));
    }
}

} // verus!
