//! Stem, extension and the name a file gets.

use vstd::prelude::*;
use vstd::string::*;

verus! {

/// Index of the last dot of `name`, or -1 where it has none.
pub open spec fn last_dot(name: Seq<char>) -> int
    decreases name.len(),
{
    if name.len() == 0 {
        -1
    } else if name.last() == '.' {
        name.len() - 1
    } else {
        last_dot(name.drop_last())
    }
}

/// The part of `name` before its last dot, which is empty where that dot
/// opens the name; all of `name` where it has no dot.
pub open spec fn stem_of(name: Seq<char>) -> Seq<char> {
    let dot = last_dot(name);
    if dot < 0 {
        name
    } else {
        name.subrange(0, dot)
    }
}

/// The part of `name` after its last dot, which is empty where that dot ends
/// the name; none where `name` has no dot.
pub open spec fn extension_of(name: Seq<char>) -> Option<Seq<char>> {
    let dot = last_dot(name);
    if dot < 0 {
        None
    } else {
        Some(name.subrange(dot + 1, name.len() as int))
    }
}

/// The name a file called `name` gets for the timestamp `stamp`: stem, a
/// hyphen, the stamp, and the extension behind a dot where it is not empty.
pub open spec fn renamed(name: Seq<char>, stamp: Seq<char>) -> Seq<char> {
    match extension_of(name) {
        Some(ext) => if ext.len() > 0 {
            stem_of(name) + seq!['-'] + stamp + seq!['.'] + ext
        } else {
            stem_of(name) + seq!['-'] + stamp
        },
        None => stem_of(name) + seq!['-'] + stamp,
    }
}

/// `last_dot` is in range, points at a dot, and no dot follows it.
pub proof fn lemma_last_dot(name: Seq<char>)
    ensures
        -1 <= last_dot(name) < name.len(),
        last_dot(name) >= 0 ==> name[last_dot(name)] == '.',
        forall|j: int| last_dot(name) < j < name.len() ==> name[j] != '.',
    decreases name.len(),
{
    if name.len() > 0 && name.last() != '.' {
        let front = name.drop_last();
        lemma_last_dot(front);
        assert forall|j: int| last_dot(name) < j < name.len() implies name[j] != '.' by {
            if j < front.len() {
                assert(front[j] == name[j]);
            }
        }
    }
}

/// A dot with no dot behind it is the last one.
pub proof fn lemma_last_dot_is(name: Seq<char>, at: int)
    requires
        0 <= at < name.len(),
        name[at] == '.',
        forall|j: int| at < j < name.len() ==> name[j] != '.',
    ensures
        last_dot(name) == at,
    decreases name.len(),
{
    if name.last() != '.' {
        lemma_last_dot_is(name.drop_last(), at);
    }
}

/// A name without a dot has no last dot.
pub proof fn lemma_no_dot(name: Seq<char>)
    requires
        forall|j: int| 0 <= j < name.len() ==> name[j] != '.',
    ensures
        last_dot(name) == -1,
    decreases name.len(),
{
    if name.len() > 0 {
        lemma_no_dot(name.drop_last());
    }
}

fn find_last_dot(name: &str) -> (found: Option<usize>)
    ensures
        match found {
            Some(at) => at == last_dot(name@),
            None => last_dot(name@) == -1,
        },
{
    let len: usize = name.unicode_len();
    let mut found: Option<usize> = None;
    let mut i: usize = 0;
    while i < len
        invariant
            len == name@.len(),
            i <= len,
            match found {
                Some(at) => at == last_dot(name@.subrange(0, i as int)),
                None => last_dot(name@.subrange(0, i as int)) == -1,
            },
        decreases len - i,
    {
        let c = name.get_char(i);
        proof {
            let next = name@.subrange(0, i + 1);
            assert(next.drop_last() =~= name@.subrange(0, i as int));
            assert(next.last() == c);
        }
        if c == '.' {
            found = Some(i);
        }
        i = i + 1;
    }
    proof {
        assert(name@.subrange(0, len as int) =~= name@);
    }
    found
}

/// Parts a file name into stem and extension at its last dot, wherever that
/// dot stands: either part may be empty. A name without a dot has no
/// extension and is its own stem.
pub fn split_name(name: &str) -> (parts: (String, Option<String>))
    ensures
        parts.0@ == stem_of(name@),
        match parts.1 {
            Some(ext) => extension_of(name@) == Some(ext@),
            None => extension_of(name@) is None,
        },
{
    let len: usize = name.unicode_len();
    proof {
        lemma_last_dot(name@);
    }
    match find_last_dot(name) {
        Some(at) => {
            let stem = String::from_str(name.substring_char(0, at));
            let ext = String::from_str(name.substring_char(at + 1, len));
            (stem, Some(ext))
        },
        None => (String::from_str(name), None),
    }
}

/// The new name of the file called `name`, for the timestamp `stamp`.
pub fn new_name(name: &str, stamp: &str) -> (fresh: String)
    ensures
        fresh@ == renamed(name@, stamp@),
{
    let (stem, extension) = split_name(name);
    let mut fresh = stem;
    proof {
        reveal_strlit("-");
        reveal_strlit(".");
        assert("-"@ =~= seq!['-']);
        assert("."@ =~= seq!['.']);
    }
    fresh.append("-");
    fresh.append(stamp);
    match extension {
        Some(ext) => {
            if ext.as_str().unicode_len() > 0 {
                fresh.append(".");
                fresh.append(ext.as_str());
            }
        },
        None => {},
    }
    fresh
}

/// A name made of a stem, a dot and a non-empty extension without a dot
/// keeps both: the stamp goes between them, behind a hyphen. Dots inside the
/// stem stay in the stem, and the stem may be empty.
pub proof fn law_extension_kept(stem: Seq<char>, ext: Seq<char>, stamp: Seq<char>)
    requires
        ext.len() > 0,
        forall|j: int| 0 <= j < ext.len() ==> ext[j] != '.',
    ensures
        stem_of(stem + seq!['.'] + ext) == stem,
        extension_of(stem + seq!['.'] + ext) == Some(ext),
        renamed(stem + seq!['.'] + ext, stamp) == stem + seq!['-'] + stamp + seq!['.'] + ext,
{
    let name = stem + seq!['.'] + ext;
    let at = stem.len() as int;
    assert(name[at] == '.');
    assert forall|j: int| at < j < name.len() implies name[j] != '.' by {
        assert(name[j] == ext[j - at - 1]);
    }
    lemma_last_dot_is(name, at);
    assert(name.subrange(0, at) =~= stem);
    assert(name.subrange(at + 1, name.len() as int) =~= ext);
}

/// A name that ends with its dot loses it: the extension is empty, and the
/// new name is what stood before the dot, a hyphen and the stamp.
pub proof fn law_empty_extension_dropped(stem: Seq<char>, stamp: Seq<char>)
    ensures
        stem_of(stem + seq!['.']) == stem,
        extension_of(stem + seq!['.']) == Some(Seq::<char>::empty()),
        renamed(stem + seq!['.'], stamp) == stem + seq!['-'] + stamp,
{
    let name = stem + seq!['.'];
    let at = stem.len() as int;
    assert(name[at] == '.');
    lemma_last_dot_is(name, at);
    assert(name.subrange(0, at) =~= stem);
    assert(name.subrange(at + 1, name.len() as int) =~= Seq::<char>::empty());
}

/// The parts make up the name: where there is an extension, it holds no dot,
/// and stem, dot and extension in that order are the name; where there is
/// none, the name holds no dot.
pub proof fn law_parts_rebuild_name(name: Seq<char>)
    ensures
        match extension_of(name) {
            Some(ext) => name == stem_of(name) + seq!['.'] + ext && forall|j: int|
                0 <= j < ext.len() ==> ext[j] != '.',
            None => stem_of(name) == name && forall|j: int|
                0 <= j < name.len() ==> name[j] != '.',
        },
{
    lemma_last_dot(name);
    let dot = last_dot(name);
    if dot >= 0 {
        let ext = name.subrange(dot + 1, name.len() as int);
        assert(name =~= name.subrange(0, dot) + seq!['.'] + ext);
        assert forall|j: int| 0 <= j < ext.len() implies ext[j] != '.' by {
            assert(ext[j] == name[dot + 1 + j]);
        }
    }
}

/// A name without a dot gains no dot: it is followed by a hyphen and the
/// stamp, and nothing else.
pub proof fn law_no_extension(name: Seq<char>, stamp: Seq<char>)
    requires
        forall|j: int| 0 <= j < name.len() ==> name[j] != '.',
    ensures
        stem_of(name) == name,
        extension_of(name) is None,
        renamed(name, stamp) == name + seq!['-'] + stamp,
{
    lemma_no_dot(name);
}

/// The new name is longer than the old by the stamp and the hyphen, less the
/// dot of an empty extension.
pub proof fn law_length(name: Seq<char>, stamp: Seq<char>)
    ensures
        extension_of(name) == Some(Seq::<char>::empty()) ==> renamed(name, stamp).len()
            == name.len() + stamp.len(),
        extension_of(name) != Some(Seq::<char>::empty()) ==> renamed(name, stamp).len()
            == name.len() + stamp.len() + 1,
{
    lemma_last_dot(name);
    match extension_of(name) {
        Some(ext) => {
            if ext.len() == 0 {
                assert(ext =~= Seq::<char>::empty());
            }
        },
        None => {},
    }
}

} // verus!
