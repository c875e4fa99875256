//! Entity keys: how an entity's stable identifier is made from its namespace and name.

use vstd::prelude::*;
use vstd::string::*;

verus! {

/// The character that joins a name and a namespace into a key. No name may hold it.
pub open spec fn separator() -> char {
    '.'
}

/// A name is valid when it does not hold the separator.
pub open spec fn name_is_valid(name: Seq<char>) -> bool {
    !name.contains(separator())
}

/// The key of the entity `name` in `namespace`: the name, the separator, the namespace.
pub open spec fn entity_key(namespace: Seq<char>, name: Seq<char>) -> Seq<char> {
    name + seq![separator()] + namespace
}

/// Whether `name` is valid: see [`name_is_valid`].
pub fn valid_name(name: &str) -> (yes: bool)
    ensures
        yes == name_is_valid(name@),
{
    let n = name.unicode_len();
    let mut i: usize = 0;
    while i < n
        invariant
            n == name@.len(),
            i <= n,
            forall|j: int| 0 <= j < i ==> name@[j] != separator(),
        decreases n - i,
    {
        if name.get_char(i) == '.' {
            return false;
        }
        i += 1;
    }
    true
}

/// The key of the entity `name` in `namespace`.
pub fn gen_key(namespace: &str, name: &str) -> (key: String)
    ensures
        key@ == entity_key(namespace@, name@),
{
    let mut key = String::from_str(name);
    key.append(".");
    key.append(namespace);
    proof {
        reveal_strlit(".");
    }
    key
}

/// Whether `at` is where the first separator of `key` stands; the length of
/// `key` if it holds none.
pub open spec fn is_split(key: Seq<char>, at: int) -> bool {
    &&& 0 <= at <= key.len()
    &&& at < key.len() ==> key[at] == separator()
    &&& forall|j: int| 0 <= j < at ==> key[j] != separator()
}

/// Where the first separator of `key` stands; the length of `key` if it holds none.
pub open spec fn split_at(key: Seq<char>) -> int {
    choose|at: int| is_split(key, at)
}

/// The name in a key: what stands before the first separator.
pub open spec fn name_of(key: Seq<char>) -> Seq<char> {
    key.take(split_at(key))
}

/// The namespace in a key: what stands behind the first separator; empty if
/// the key holds no separator.
pub open spec fn namespace_of(key: Seq<char>) -> Seq<char> {
    if split_at(key) < key.len() {
        key.skip(split_at(key) + 1)
    } else {
        Seq::empty()
    }
}

/// There is one place where the first separator stands.
pub proof fn lemma_split(key: Seq<char>, at: int)
    requires
        is_split(key, at),
    ensures
        split_at(key) == at,
{
}

/// Where the first separator of `key` stands.
fn find_split(key: &str) -> (at: usize)
    ensures
        at == split_at(key@),
        is_split(key@, at as int),
{
    let n = key.unicode_len();
    let mut i: usize = 0;
    while i < n
        invariant
            n == key@.len(),
            i <= n,
            forall|j: int| 0 <= j < i ==> key@[j] != separator(),
        decreases n - i,
    {
        if key.get_char(i) == '.' {
            proof {
                lemma_split(key@, i as int);
            }
            return i;
        }
        i += 1;
    }
    proof {
        lemma_split(key@, n as int);
    }
    n
}

/// The name in a key: see [`name_of`].
pub fn key_name(key: &str) -> (name: String)
    ensures
        name@ == name_of(key@),
{
    let at = find_split(key);
    let part = key.substring_char(0, at);
    String::from_str(part)
}

/// The namespace in a key: see [`namespace_of`].
pub fn key_namespace(key: &str) -> (namespace: String)
    ensures
        namespace@ == namespace_of(key@),
{
    let at = find_split(key);
    let n = key.unicode_len();
    if at < n {
        let part = key.substring_char(at + 1, n);
        String::from_str(part)
    } else {
        String::new()
    }
}

/// A key tells its name and namespace: the key of a valid name in a
/// namespace splits into that name and that namespace.
pub proof fn law_key_splits(namespace: Seq<char>, name: Seq<char>)
    requires
        name_is_valid(name),
    ensures
        name_of(entity_key(namespace, name)) == name,
        namespace_of(entity_key(namespace, name)) == namespace,
{
    let key = entity_key(namespace, name);
    lemma_split(key, name.len() as int);
}

/// Keys do not collide: two valid names in two namespaces have the same key
/// only if the names are the same and the namespaces are the same.
pub proof fn law_key_is_injective(
    namespace_a: Seq<char>,
    name_a: Seq<char>,
    namespace_b: Seq<char>,
    name_b: Seq<char>,
)
    requires
        name_is_valid(name_a),
        name_is_valid(name_b),
        entity_key(namespace_a, name_a) == entity_key(namespace_b, name_b),
    ensures
        name_a == name_b,
        namespace_a == namespace_b,
{
    let ka = entity_key(namespace_a, name_a);
    let kb = entity_key(namespace_b, name_b);
    if name_a.len() < name_b.len() {
        assert(kb[name_a.len() as int] == name_b[name_a.len() as int]);
    }
    if name_b.len() < name_a.len() {
        assert(ka[name_b.len() as int] == name_a[name_b.len() as int]);
    }
    assert(name_b =~= kb.subrange(0, name_b.len() as int));
    assert(namespace_b =~= kb.subrange(name_b.len() as int + 1, kb.len() as int));
}

} // verus!
