//! File names: where the extension starts, and the name that a prefix and a
//! suffix make of one.

use vstd::prelude::*;
use vstd::string::*;

verus! {

/// The index of the last `.` of `name`, if it holds one.
pub open spec fn last_dot(name: Seq<char>) -> Option<int>
    decreases name.len(),
{
    if name.len() == 0 {
        None
    } else if name.last() == '.' {
        Some(name.len() - 1)
    } else {
        last_dot(name.drop_last())
    }
}

/// The part of `name` in front of its last `.`; the whole name where it has none.
pub open spec fn stem(name: Seq<char>) -> Seq<char> {
    match last_dot(name) {
        Some(p) => name.subrange(0, p),
        None => name,
    }
}

/// The part of `name` from its last `.` on, the `.` included; empty where it has none.
pub open spec fn extension(name: Seq<char>) -> Seq<char> {
    match last_dot(name) {
        Some(p) => name.subrange(p, name.len() as int),
        None => Seq::empty(),
    }
}

/// The name that `prefix` and `suffix` make of `name`: the prefix goes in
/// front, the suffix between the stem and the extension.
pub open spec fn spliced_name(name: Seq<char>, prefix: Seq<char>, suffix: Seq<char>) -> Seq<char> {
    prefix + stem(name) + suffix + extension(name)
}

/// `last_dot` finds a `.`, no `.` stands behind it, and it finds none only
/// where the name holds none.
pub proof fn lemma_last_dot(name: Seq<char>)
    ensures
        match last_dot(name) {
            Some(p) => 0 <= p < name.len() && name[p] == '.' && forall|j: int|
                p < j < name.len() ==> name[j] != '.',
            None => forall|j: int| 0 <= j < name.len() ==> name[j] != '.',
        },
    decreases name.len(),
{
    if name.len() > 0 && name.last() != '.' {
        let front = name.drop_last();
        lemma_last_dot(front);
        assert forall|j: int| 0 <= j < front.len() implies front[j] == name[j] by {}
    }
}

/// An index that holds a `.` with none behind it is the one `last_dot` gives.
pub proof fn lemma_last_dot_unique(name: Seq<char>, p: int)
    requires
        0 <= p < name.len(),
        name[p] == '.',
        forall|j: int| p < j < name.len() ==> name[j] != '.',
    ensures
        last_dot(name) == Some(p),
{
    lemma_last_dot(name);
}

/// Stem and extension are the two halves of the name.
pub proof fn lemma_stem_extension(name: Seq<char>)
    ensures
        stem(name) + extension(name) == name,
{
    lemma_last_dot(name);
    assert(stem(name) + extension(name) =~= name);
}

/// In a name that holds a `.`, the suffix goes in front of the last `.` and
/// what stands from there on stays as it is: the new name is the prefix, the
/// name up to its last `.`, the suffix, and the name from its last `.` on.
pub proof fn lemma_spliced_at_last_dot(
    name: Seq<char>,
    prefix: Seq<char>,
    suffix: Seq<char>,
    p: int,
)
    requires
        0 <= p < name.len(),
        name[p] == '.',
        forall|j: int| p < j < name.len() ==> name[j] != '.',
    ensures
        spliced_name(name, prefix, suffix) == prefix + name.subrange(0, p) + suffix
            + name.subrange(p, name.len() as int),
{
    lemma_last_dot_unique(name, p);
}

/// A name without a `.` gets the prefix in front and the suffix at its end.
pub proof fn lemma_spliced_without_dot(name: Seq<char>, prefix: Seq<char>, suffix: Seq<char>)
    requires
        forall|j: int| 0 <= j < name.len() ==> name[j] != '.',
    ensures
        spliced_name(name, prefix, suffix) == prefix + name + suffix,
{
    lemma_last_dot(name);
    assert(prefix + name + suffix + Seq::<char>::empty() =~= prefix + name + suffix);
}

/// The new name holds every character of the old one: it is as long as
/// prefix, name and suffix together, and with neither prefix nor suffix it
/// is the old name.
pub proof fn lemma_spliced_keeps_name(name: Seq<char>, prefix: Seq<char>, suffix: Seq<char>)
    ensures
        spliced_name(name, prefix, suffix).len() == prefix.len() + name.len() + suffix.len(),
        prefix.len() == 0 && suffix.len() == 0 ==> spliced_name(name, prefix, suffix) == name,
{
    lemma_last_dot(name);
    if prefix.len() == 0 && suffix.len() == 0 {
        assert(spliced_name(name, prefix, suffix) =~= name);
    }
}

/// Finds the last `.` of `name`, counted in characters.
pub fn find_last_dot(name: &str) -> (result: Option<usize>)
    ensures
        result is Some == last_dot(name@) is Some,
        result matches Some(p) ==> last_dot(name@) == Some(p as int),
{
    let n: usize = name.unicode_len();
    let mut i: usize = n;
    while i > 0
        invariant
            n == name@.len(),
            i <= n,
            forall|j: int| i <= j < n ==> name@[j] != '.',
        decreases i,
    {
        if name.get_char(i - 1) == '.' {
            proof {
                lemma_last_dot_unique(name@, i - 1);
            }
            return Some(i - 1);
        }
        i -= 1;
    }
    proof {
        lemma_last_dot(name@);
    }
    None
}

/// Splits `name` in front of its last `.` into stem and extension.
pub fn split_extension(name: &str) -> (result: (&str, &str))
    ensures
        result.0@ == stem(name@),
        result.1@ == extension(name@),
{
    let n: usize = name.unicode_len();
    match find_last_dot(name) {
        Some(p) => {
            proof {
                lemma_last_dot(name@);
            }
            (name.substring_char(0, p), name.substring_char(p, n))
        },
        None => {
            proof {
                assert(name@.subrange(n as int, n as int) =~= Seq::empty());
            }
            (name, name.substring_char(n, n))
        },
    }
}

/// Builds the new name of a file: `prefix`, the stem of `file_name`, `suffix`
/// and the extension of `file_name`, in this order.
pub fn new_file_name(file_name: &str, prefix: &str, suffix: &str) -> (result: String)
    ensures
        result@ == spliced_name(file_name@, prefix@, suffix@),
{
    let (stem_part, extension_part) = split_extension(file_name);
    let mut name = String::from_str(prefix);
    name.append(stem_part);
    name.append(suffix);
    name.append(extension_part);
    name
}

} // verus!
