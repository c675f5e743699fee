use crate::text::{
    chars_of, eq_chars, lemma_split_concat, lemma_split_nonempty, split, split_fields, texts,
};
use vstd::prelude::*;

verus! {

/// A path is rooted when it starts with a separator.
pub open spec fn is_rooted(p: Seq<char>) -> bool {
    p.len() > 0 && p[0] == '/'
}

/// Whether the field at `i`, one of the fields between separators, names a
/// component: an empty field does not, and `.` does only in the first place.
pub open spec fn keeps_field(fields: Seq<Seq<char>>, i: int) -> bool {
    fields[i].len() > 0 && (i == 0 || fields[i] != seq!['.'])
}

/// The fields among the first `n` that name a component, in order.
pub open spec fn kept_fields(fields: Seq<Seq<char>>, n: int) -> Seq<Seq<char>>
    decreases n,
{
    if n <= 0 {
        Seq::<Seq<char>>::empty()
    } else if keeps_field(fields, n - 1) {
        kept_fields(fields, n - 1).push(fields[n - 1])
    } else {
        kept_fields(fields, n - 1)
    }
}

/// The components of a path: the root, written `/`, where the path is rooted,
/// then the names between separators. Repeated and trailing separators count
/// for nothing, and neither does a `.` after the first place.
pub open spec fn components(p: Seq<char>) -> Seq<Seq<char>> {
    let fields = split(p, '/');
    let names = kept_fields(fields, fields.len() as int);
    if is_rooted(p) {
        seq![seq!['/']] + names
    } else {
        names
    }
}

/// One path is the other, or lies above it, or lies below it.
pub open spec fn paths_related(a: Seq<char>, b: Seq<char>) -> bool {
    components(a).is_prefix_of(components(b)) || components(b).is_prefix_of(components(a))
}

/// The components of the path `p`.
pub fn path_components(p: &Vec<char>) -> (out: Vec<Vec<char>>)
    ensures
        texts(out@) == components(p@),
{
    let fields = split_fields(p, '/');
    let mut out: Vec<Vec<char>> = Vec::new();
    if p.len() > 0 && p[0] == '/' {
        let mut root: Vec<char> = Vec::new();
        root.push('/');
        out.push(root);
        proof {
            assert(texts(out@) =~= seq![seq!['/']]);
        }
    }
    let ghost head = texts(out@);
    let mut i: usize = 0;
    proof {
        assert(texts(out@) =~= head + kept_fields(texts(fields@), 0));
    }
    while i < fields.len()
        invariant
            i <= fields.len(),
            texts(out@) == head + kept_fields(texts(fields@), i as int),
        decreases fields.len() - i,
    {
        let f = &fields[i];
        let dot = f.len() == 1 && f[0] == '.';
        proof {
            assert(texts(fields@)[i as int] == f@);
            assert(dot == (f@ == seq!['.'])) by {
                if dot {
                    assert(f@ =~= seq!['.']);
                }
            }
        }
        if f.len() > 0 && (i == 0 || !dot) {
            let ghost before = texts(out@);
            out.push(f.clone());
            proof {
                assert(texts(out@) =~= before.push(f@));
                assert(texts(out@) =~= head + kept_fields(texts(fields@), i as int + 1));
            }
        }
        i += 1;
    }
    out
}

/// Whether the components `a` are the first of the components `b`.
pub fn is_prefix(a: &Vec<Vec<char>>, b: &Vec<Vec<char>>) -> (r: bool)
    ensures
        r == texts(a@).is_prefix_of(texts(b@)),
{
    if a.len() > b.len() {
        return false;
    }
    let mut i: usize = 0;
    while i < a.len()
        invariant
            a.len() <= b.len(),
            i <= a.len(),
            forall|k: int| 0 <= k < i ==> (#[trigger] a@[k])@ == b@[k]@,
        decreases a.len() - i,
    {
        if !eq_chars(&a[i], &b[i]) {
            proof {
                assert(texts(a@)[i as int] == a@[i as int]@);
                assert(texts(b@).subrange(0, a.len() as int)[i as int] == b@[i as int]@);
            }
            return false;
        }
        i += 1;
    }
    proof {
        assert(texts(a@) =~= texts(b@).subrange(0, a.len() as int));
    }
    true
}

/// Whether two device paths name one device, or one a part of the other.
pub fn related(a: &str, b: &str) -> (r: bool)
    ensures
        r == paths_related(a@, b@),
{
    let ca = path_components(&chars_of(a));
    let cb = path_components(&chars_of(b));
    is_prefix(&ca, &cb) || is_prefix(&cb, &ca)
}

/// Fields that follow the first `n` have no part in what those `n` give.
pub proof fn lemma_kept_fields_of_prefix(fields: Seq<Seq<char>>, more: Seq<Seq<char>>, n: int)
    requires
        0 <= n <= fields.len(),
    ensures
        kept_fields(fields + more, n) == kept_fields(fields, n),
    decreases n,
{
    if n > 0 {
        lemma_kept_fields_of_prefix(fields, more, n - 1);
        assert((fields + more)[n - 1] == fields[n - 1]);
    }
}

/// More fields give the same components, and then more.
pub proof fn lemma_kept_fields_grow(fields: Seq<Seq<char>>, n: int, m: int)
    requires
        0 <= n <= m,
    ensures
        kept_fields(fields, n).is_prefix_of(kept_fields(fields, m)),
    decreases m - n,
{
    if n < m {
        lemma_kept_fields_grow(fields, n, m - 1);
        let few = kept_fields(fields, n);
        let most = kept_fields(fields, m - 1);
        if keeps_field(fields, m - 1) {
            assert(most.push(fields[m - 1]).subrange(0, few.len() as int) =~= most.subrange(
                0,
                few.len() as int,
            ));
        }
    } else {
        assert(kept_fields(fields, n).subrange(0, kept_fields(fields, n).len() as int)
            =~= kept_fields(fields, n));
    }
}

/// A path lies above every path that is made of it, a separator and
/// anything more.
pub proof fn lemma_extension_lies_below(base: Seq<char>, rest: Seq<char>)
    ensures
        components(base).is_prefix_of(components(base + seq!['/'] + rest)),
        paths_related(base, base + seq!['/'] + rest),
        paths_related(base + seq!['/'] + rest, base),
{
    let longer = base + seq!['/'] + rest;
    let near = split(base, '/');
    let far = split(rest, '/');
    lemma_split_concat(base, rest, '/');
    lemma_split_nonempty(base, '/');
    lemma_kept_fields_of_prefix(near, far, near.len() as int);
    lemma_kept_fields_grow(near + far, near.len() as int, (near + far).len() as int);
    let few = kept_fields(near, near.len() as int);
    let most = kept_fields(near + far, (near + far).len() as int);
    assert(few.is_prefix_of(most));
    if base.len() == 0 {
        assert(near =~= seq![Seq::<char>::empty()]);
        assert(kept_fields(near, 0) =~= Seq::<Seq<char>>::empty());
        assert(!keeps_field(near, 0));
        assert(kept_fields(near, 1) == kept_fields(near, 0));
        assert(components(base) =~= Seq::<Seq<char>>::empty());
        assert(components(longer).subrange(0, 0) =~= components(base));
    } else {
        assert(longer[0] == base[0]);
        if is_rooted(base) {
            let root = seq![seq!['/']];
            assert((root + most).subrange(0, (root + few).len() as int) =~= root + most.subrange(
                0,
                few.len() as int,
            ));
        }
    }
}

/// Each path is related to itself.
pub proof fn lemma_related_to_itself(p: Seq<char>)
    ensures
        paths_related(p, p),
{
    assert(components(p).subrange(0, components(p).len() as int) =~= components(p));
}

/// The relation does not depend on the order of the two paths.
pub proof fn lemma_related_both_ways(a: Seq<char>, b: Seq<char>)
    ensures
        paths_related(a, b) == paths_related(b, a),
{
}

} // verus!
