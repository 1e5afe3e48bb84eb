//! Placement of remote-declared relative names under a local root.
use vstd::prelude::*;

use crate::error::TransferError;

verus! {

/// The parts of `s` between the `/` separators, in order; always at least one.
pub open spec fn split_on_slash(s: Seq<char>) -> Seq<Seq<char>>
    decreases s.len(),
{
    if s.len() == 0 {
        seq![Seq::<char>::empty()]
    } else {
        let parts = split_on_slash(s.drop_last());
        if s.last() == '/' {
            parts.push(Seq::<char>::empty())
        } else {
            parts.update(parts.len() - 1, parts.last().push(s.last()))
        }
    }
}

/// A component that begins like a drive prefix (`C:`), which some platforms
/// read as the start of an absolute path.
pub open spec fn is_drive_prefix(c: Seq<char>) -> bool {
    c.len() >= 2 && c[1] == ':' && (('a' <= c[0] <= 'z') || ('A' <= c[0] <= 'Z'))
}

/// A component that stays where it is put: not empty, not `.` or `..`, not
/// a drive prefix, and free of both `/` and `\` (which some platforms read as
/// a separator).
pub open spec fn is_safe_component(c: Seq<char>) -> bool {
    &&& c.len() > 0
    &&& c != seq!['.']
    &&& c != seq!['.', '.']
    &&& !is_drive_prefix(c)
    &&& forall|i: int| 0 <= i < c.len() ==> c[i] != '/' && c[i] != '\\'
}

/// Every component of the name is safe.
pub open spec fn is_safe_name(name: Seq<char>) -> bool {
    forall|i: int|
        0 <= i < split_on_slash(name).len() ==> is_safe_component(#[trigger] split_on_slash(name)[i])
}

/// `name` placed under `root`, with one separator between them unless `root`
/// is empty or already ends in one.
pub open spec fn joined_path(root: Seq<char>, name: Seq<char>) -> Seq<char> {
    if root.len() == 0 || root.last() == '/' {
        root + name
    } else {
        root + seq!['/'] + name
    }
}

/// Splitting yields at least one part, even for an empty name.
pub proof fn lemma_split_nonempty(s: Seq<char>)
    ensures
        split_on_slash(s).len() >= 1,
    decreases s.len(),
{
    if s.len() > 0 {
        lemma_split_nonempty(s.drop_last());
    }
}

/// Accepts a component exactly when it is safe to place under a root.
pub fn validate_path_component(component: &str) -> (r: Result<(), TransferError>)
    ensures
        r is Ok <==> is_safe_component(component@),
        r is Err ==> r == Err::<(), TransferError>(TransferError::InvalidPathComponent),
{
    let n = component.unicode_len();
    if n == 0 {
        return Err(TransferError::InvalidPathComponent);
    }
    let mut i: usize = 0;
    while i < n
        invariant
            n == component@.len(),
            0 <= i <= n,
            forall|j: int| 0 <= j < i ==> component@[j] != '/' && component@[j] != '\\',
        decreases n - i,
    {
        let c = component.get_char(i);
        if c == '/' || c == '\\' {
            return Err(TransferError::InvalidPathComponent);
        }
        i += 1;
    }
    let first = component.get_char(0);
    if n >= 2 && component.get_char(1) == ':' && (('a' <= first && first <= 'z') || ('A' <= first
        && first <= 'Z')) {
        return Err(TransferError::InvalidPathComponent);
    }
    if n == 1 && first == '.' {
        assert(component@ =~= seq!['.']);
        return Err(TransferError::InvalidPathComponent);
    }
    if n == 2 && first == '.' && component.get_char(1) == '.' {
        assert(component@ =~= seq!['.', '.']);
        return Err(TransferError::InvalidPathComponent);
    }
    assert(component@ != seq!['.']) by {
        if n == 1 {
            assert(component@[0] != seq!['.'][0]);
        }
    }
    assert(component@ != seq!['.', '.']) by {
        if n == 2 {
            if first != '.' {
                assert(component@[0] != seq!['.', '.'][0]);
            } else {
                assert(component@[1] != seq!['.', '.'][1]);
            }
        }
    }
    Ok(())
}

/// The parts of a prefix of `s` that are already closed by a separator are
/// parts of `s` as well.
pub proof fn lemma_split_prefix(s: Seq<char>, i: int)
    requires
        0 <= i <= s.len(),
    ensures
        split_on_slash(s.take(i)).len() <= split_on_slash(s).len(),
        forall|j: int|
            0 <= j < split_on_slash(s.take(i)).len() - 1 ==> #[trigger] split_on_slash(s)[j]
                == split_on_slash(s.take(i))[j],
    decreases s.len() - i,
{
    if i < s.len() {
        let a = s.take(i);
        let b = s.take(i + 1);
        assert(b.drop_last() =~= a);
        lemma_split_nonempty(a);
        lemma_split_prefix(s, i + 1);
    } else {
        assert(s.take(i) =~= s);
    }
}

/// `name` placed under `root`, provided each of its components is safe.
pub fn get_export_path(root: &str, name: &str) -> (r: Result<String, TransferError>)
    ensures
        r is Ok <==> is_safe_name(name@),
        r matches Ok(p) ==> p@ == joined_path(root@, name@),
        r is Err ==> r == Err::<String, TransferError>(TransferError::InvalidPathComponent),
{
    let n = name.unicode_len();
    let mut start: usize = 0;
    let mut i: usize = 0;
    proof {
        assert(name@.take(0) =~= Seq::<char>::empty());
        assert(name@.subrange(0, 0) =~= Seq::<char>::empty());
    }
    while i < n
        invariant
            n == name@.len(),
            0 <= start <= i <= n,
            split_on_slash(name@.take(i as int)).len() >= 1,
            split_on_slash(name@.take(i as int)).last() == name@.subrange(start as int, i as int),
            forall|j: int|
                0 <= j < split_on_slash(name@.take(i as int)).len() - 1 ==> is_safe_component(
                    #[trigger] split_on_slash(name@.take(i as int))[j],
                ),
        decreases n - i,
    {
        let ghost before = split_on_slash(name@.take(i as int));
        let c = name.get_char(i);
        proof {
            assert(name@.take(i + 1).drop_last() =~= name@.take(i as int));
        }
        if c == '/' {
            let part = name.substring_char(start, i);
            match validate_path_component(part) {
                Ok(()) => {},
                Err(e) => {
                    proof {
                        lemma_split_prefix(name@, i + 1);
                        assert(split_on_slash(name@)[before.len() - 1] == part@);
                    }
                    return Err(e);
                },
            }
            start = i + 1;
            proof {
                let after = split_on_slash(name@.take(i as int + 1));
                assert(after == before.push(Seq::<char>::empty()));
                assert(name@.subrange(start as int, i as int + 1) =~= Seq::<char>::empty());
                assert forall|j: int| 0 <= j < after.len() - 1 implies is_safe_component(
                    #[trigger] after[j],
                ) by {
                    assert(after[j] == before[j]);
                }
            }
        } else {
            proof {
                let after = split_on_slash(name@.take(i as int + 1));
                assert(name@.subrange(start as int, i as int + 1) =~= name@.subrange(
                    start as int,
                    i as int,
                ).push(c));
                assert forall|j: int| 0 <= j < after.len() - 1 implies is_safe_component(
                    #[trigger] after[j],
                ) by {
                    assert(after[j] == before[j]);
                }
            }
        }
        i += 1;
    }
    proof {
        assert(name@.take(n as int) =~= name@);
    }
    let last = name.substring_char(start, n);
    match validate_path_component(last) {
        Ok(()) => {},
        Err(e) => {
            return Err(e);
        },
    }
    proof {
        let parts = split_on_slash(name@);
        assert forall|j: int| 0 <= j < parts.len() implies is_safe_component(
            #[trigger] parts[j],
        ) by {
            if j < parts.len() - 1 {
            }
        }
    }
    let mut path = String::from_str(root);
    let rn = root.unicode_len();
    if rn > 0 && root.get_char(rn - 1) != '/' {
        path.append("/");
    }
    path.append(name);
    proof {
        reveal_strlit("/");
        assert(joined_path(root@, name@) =~= path@);
    }
    Ok(path)
}

/// The first component of `name`, as shown once a download has completed.
pub fn first_component(name: &str) -> (r: String)
    ensures
        r@ == split_on_slash(name@)[0],
{
    let n = name.unicode_len();
    let mut i: usize = 0;
    proof {
        assert(name@.take(0) =~= Seq::<char>::empty());
    }
    while i < n
        invariant
            n == name@.len(),
            0 <= i <= n,
            split_on_slash(name@.take(i as int)) == seq![name@.take(i as int)],
        decreases n - i,
    {
        let c = name.get_char(i);
        proof {
            assert(name@.take(i + 1).drop_last() =~= name@.take(i as int));
        }
        if c == '/' {
            proof {
                lemma_split_prefix(name@, i + 1);
                lemma_split_nonempty(name@);
                assert(split_on_slash(name@.take(i + 1))[0] == name@.take(i as int));
            }
            return String::from_str(name.substring_char(0, i));
        }
        proof {
            assert(name@.take(i + 1) =~= name@.take(i as int).push(c));
            assert(split_on_slash(name@.take(i + 1)) =~= seq![name@.take(i + 1)]);
        }
        i += 1;
    }
    proof {
        assert(name@.take(n as int) =~= name@);
    }
    String::from_str(name)
}

/// The parts joined with one `/` between neighbours.
pub open spec fn join_with_slash(parts: Seq<Seq<char>>) -> Seq<char>
    decreases parts.len(),
{
    if parts.len() == 0 {
        Seq::<char>::empty()
    } else if parts.len() == 1 {
        parts[0]
    } else {
        join_with_slash(parts.drop_last()) + seq!['/'] + parts.last()
    }
}

pub open spec fn has_no_slash(p: Seq<char>) -> bool {
    forall|i: int| 0 <= i < p.len() ==> p[i] != '/'
}

proof fn lemma_split_no_slash(p: Seq<char>)
    requires
        has_no_slash(p),
    ensures
        split_on_slash(p) == seq![p],
    decreases p.len(),
{
    if p.len() > 0 {
        lemma_split_no_slash(p.drop_last());
        assert(p.drop_last().push(p.last()) =~= p);
        assert(split_on_slash(p) =~= seq![p]);
    } else {
        assert(p =~= Seq::<char>::empty());
    }
}

proof fn lemma_split_after_slash(a: Seq<char>, b: Seq<char>)
    requires
        has_no_slash(b),
    ensures
        split_on_slash(a + seq!['/'] + b) == split_on_slash(a).push(b),
    decreases b.len(),
{
    lemma_split_nonempty(a);
    if b.len() == 0 {
        assert((a + seq!['/'] + b).drop_last() =~= a);
        assert(a + seq!['/'] + b =~= a.push('/'));
        assert(b =~= Seq::<char>::empty());
        assert((a + seq!['/'] + b).last() == '/');
    } else {
        let b0 = b.drop_last();
        lemma_split_after_slash(a, b0);
        assert((a + seq!['/'] + b).drop_last() =~= a + seq!['/'] + b0);
        assert(b0.push(b.last()) =~= b);
        assert(split_on_slash(a + seq!['/'] + b) =~= split_on_slash(a).push(b));
    }
}

/// A name joined from safe components splits back into exactly those
/// components, and is therefore accepted by [`get_export_path`].
pub proof fn lemma_joined_name_round_trip(parts: Seq<Seq<char>>)
    requires
        parts.len() >= 1,
        forall|i: int| 0 <= i < parts.len() ==> is_safe_component(#[trigger] parts[i]),
    ensures
        split_on_slash(join_with_slash(parts)) == parts,
        is_safe_name(join_with_slash(parts)),
    decreases parts.len(),
{
    if parts.len() == 1 {
        lemma_split_no_slash(parts[0]);
        assert(seq![parts[0]] =~= parts);
    } else {
        let init = parts.drop_last();
        assert forall|i: int| 0 <= i < init.len() implies is_safe_component(#[trigger] init[i]) by {
            assert(init[i] == parts[i]);
        }
        lemma_joined_name_round_trip(init);
        assert(is_safe_component(parts[parts.len() - 1]));
        lemma_split_after_slash(join_with_slash(init), parts.last());
        assert(init.push(parts.last()) =~= parts);
    }
}

/// The name of a packaged entry: its relative path components joined with
/// `/`, each of them safe.
pub fn entry_name(components: &Vec<String>) -> (r: Result<String, TransferError>)
    ensures
        r is Ok <==> components@.len() >= 1 && forall|i: int|
            0 <= i < components@.len() ==> is_safe_component(#[trigger] components@[i]@),
        r matches Ok(name) ==> name@ == join_with_slash(
            components@.map_values(|c: String| c@),
        ),
        r is Err ==> r == Err::<String, TransferError>(TransferError::InvalidPathComponent),
{
    let ghost parts = components@.map_values(|c: String| c@);
    if components.len() == 0 {
        return Err(TransferError::InvalidPathComponent);
    }
    let mut name = String::new();
    let mut i: usize = 0;
    while i < components.len()
        invariant
            parts == components@.map_values(|c: String| c@),
            0 <= i <= components@.len(),
            components@.len() >= 1,
            forall|j: int| 0 <= j < i ==> is_safe_component(#[trigger] components@[j]@),
            name@ == join_with_slash(parts.take(i as int)),
        decreases components@.len() - i,
    {
        match validate_path_component(components[i].as_str()) {
            Ok(()) => {},
            Err(e) => {
                return Err(e);
            },
        }
        proof {
            reveal_strlit("/");
            assert(parts.take(i + 1).drop_last() =~= parts.take(i as int));
            if i == 0 {
                assert(parts.take(1) =~= seq![components@[0]@]);
            }
        }
        if i > 0 {
            name.append("/");
        }
        name.append(components[i].as_str());
        proof {
            if i == 0 {
                assert(name@ =~= join_with_slash(parts.take(1)));
            } else {
                assert(name@ =~= join_with_slash(parts.take(i + 1)));
            }
        }
        i += 1;
    }
    proof {
        assert(parts.take(components@.len() as int) =~= parts);
    }
    Ok(name)
}

} // verus!
