//! The lookup key of a request target: everything before the first `?`.

use vstd::prelude::*;
use vstd::std_specs::iter::IteratorSpec;
use vstd::string::StrSliceExecFns;

verus! {

/// The part of a request target that handlers are registered under: the
/// target up to its first `?`, or all of it when it holds none.
pub open spec fn path_key(uri: Seq<char>) -> Seq<char> {
    match uri.index_of_first('?') {
        Some(i) => uri.take(i),
        None => uri,
    }
}

/// The number of characters in front of the first `?` of `uri`; the length
/// of `uri` when it holds none.
pub open spec fn key_len(uri: Seq<char>) -> int {
    match uri.index_of_first('?') {
        Some(i) => i,
        None => uri.len() as int,
    }
}

/// A position with no `?` in front of it, that holds one or is the end, is
/// where the key ends.
pub proof fn lemma_key_len_is(uri: Seq<char>, n: int)
    requires
        0 <= n <= uri.len(),
        forall|j: int| 0 <= j < n ==> uri[j] != '?',
        n < uri.len() ==> uri[n] == '?',
    ensures
        key_len(uri) == n,
        path_key(uri) == uri.take(n),
{
    uri.index_of_first_ensures('?');
    assert(uri.take(uri.len() as int) =~= uri);
}

/// A target that holds no `?` is its own key.
pub proof fn lemma_key_of_plain_path(path: Seq<char>)
    requires
        !path.contains('?'),
    ensures
        path_key(path) == path,
{
    path.index_of_first_ensures('?');
}

/// The query never takes part in the key: whatever follows the first `?`,
/// the key of `path?query` is `path`.
pub proof fn lemma_query_is_ignored(path: Seq<char>, query: Seq<char>)
    requires
        !path.contains('?'),
    ensures
        path_key(path + seq!['?'] + query) == path,
{
    let uri = path + seq!['?'] + query;
    let n = path.len() as int;
    assert forall|j: int| 0 <= j < n implies uri[j] != '?' by {
        assert(uri[j] == path[j]);
    }
    assert(uri[n] == '?');
    lemma_key_len_is(uri, n);
    assert(uri.take(n) =~= path);
}

/// A key holds no `?`, so the key of a key is that key.
pub proof fn lemma_key_holds_no_query(uri: Seq<char>)
    ensures
        !path_key(uri).contains('?'),
        path_key(path_key(uri)) == path_key(uri),
{
    uri.index_of_first_ensures('?');
    let key = path_key(uri);
    if key.contains('?') {
        let j = choose|j: int| 0 <= j < key.len() && key[j] == '?';
        assert(uri[j] == '?');
    }
    lemma_key_of_plain_path(key);
}

/// Counts the characters in front of the first `?`.
fn count_key_chars(uri: &str) -> (n: usize)
    ensures
        n == key_len(uri@),
{
    let total = uri.unicode_len();
    let mut n: usize = 0;
    let mut chars = uri.chars();
    loop
        invariant
            total == uri@.len(),
            n <= total,
            chars.obeys_prophetic_iter_laws(),
            chars.remaining() == uri@.skip(n as int),
            forall|j: int| 0 <= j < n ==> uri@[j] != '?',
        decreases total - n,
    {
        match chars.next() {
            Some(c) => {
                assert(c == uri@[n as int]);
                if c == '?' {
                    proof {
                        lemma_key_len_is(uri@, n as int);
                    }
                    return n;
                }
                assert(uri@.skip(n as int).drop_first() =~= uri@.skip(n as int + 1));
                n += 1;
            },
            None => {
                proof {
                    lemma_key_len_is(uri@, n as int);
                }
                return n;
            },
        }
    }
}

/// Cuts the query off a request target.
pub fn lookup_key(uri: &str) -> (key: &str)
    ensures
        key@ == path_key(uri@),
{
    let n = count_key_chars(uri);
    proof {
        uri@.index_of_first_ensures('?');
        assert(uri@.take(uri@.len() as int) =~= uri@);
    }
    uri.substring_char(0, n)
}

} // verus!
