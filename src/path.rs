use vstd::prelude::*;

verus! {

/// Index of the last `.` or `/` in `p`, or -1 where there is none.
pub open spec fn last_mark(p: Seq<char>) -> int
    decreases p.len(),
{
    if p.len() == 0 {
        -1
    } else if p.last() == '.' || p.last() == '/' {
        p.len() - 1
    } else {
        last_mark(p.drop_last())
    }
}

/// Index of the dot that starts the extension of the file name that ends `p`.
/// A file name has an extension where it holds a dot that is not its first
/// character; the extension follows the last such dot.
pub open spec fn ext_dot(p: Seq<char>) -> Option<int> {
    let d = last_mark(p);
    if d >= 1 && p[d] == '.' && p[d - 1] != '/' {
        Some(d)
    } else {
        None
    }
}

/// The extension of the file that `p` names, without its dot.
pub open spec fn extension_of(p: Seq<char>) -> Option<Seq<char>> {
    match ext_dot(p) {
        Some(d) => Some(p.subrange(d + 1, p.len() as int)),
        None => None,
    }
}

/// `p` without the dot and extension of its file name.
pub open spec fn stem_of(p: Seq<char>) -> Seq<char> {
    match ext_dot(p) {
        Some(d) => p.subrange(0, d),
        None => p,
    }
}

/// `p` with the extension of its file name replaced by `e`; an empty `e`
/// removes the extension and its dot.
pub open spec fn replace_ext(p: Seq<char>, e: Seq<char>) -> Seq<char> {
    if e.len() == 0 {
        stem_of(p)
    } else {
        stem_of(p) + seq!['.'] + e
    }
}

proof fn lemma_last_mark_bounds(p: Seq<char>)
    ensures
        -1 <= last_mark(p) < p.len(),
        forall|j: int| last_mark(p) < j < p.len() ==> p[j] != '.' && p[j] != '/',
        last_mark(p) >= 0 ==> (p[last_mark(p)] == '.' || p[last_mark(p)] == '/'),
    decreases p.len(),
{
    if p.len() > 0 && !(p.last() == '.' || p.last() == '/') {
        lemma_last_mark_bounds(p.drop_last());
        assert forall|j: int| last_mark(p) < j < p.len() implies p[j] != '.' && p[j] != '/' by {
            if j < p.len() - 1 {
                assert(p[j] == p.drop_last()[j]);
            }
        }
    }
}

proof fn lemma_last_mark_prefix(p: Seq<char>, i: int)
    requires
        0 <= i <= p.len(),
        forall|j: int| i <= j < p.len() ==> p[j] != '.' && p[j] != '/',
    ensures
        last_mark(p) == last_mark(p.subrange(0, i)),
    decreases p.len() - i,
{
    if i < p.len() {
        assert(p.drop_last() =~= p.subrange(0, p.len() - 1));
        lemma_last_mark_prefix(p.drop_last(), i);
        assert(p.drop_last().subrange(0, i) =~= p.subrange(0, i));
    } else {
        assert(p.subrange(0, i) =~= p);
    }
}

/// Index of the last `.` or `/` in `p`.
fn find_last_mark(p: &str) -> (r: Option<usize>)
    ensures
        match r {
            Some(d) => last_mark(p@) == d as int,
            None => last_mark(p@) == -1,
        },
{
    let n = p.unicode_len();
    let mut i: usize = n;
    while i > 0
        invariant
            i <= n == p@.len(),
            forall|j: int| i <= j < n ==> p@[j] != '.' && p@[j] != '/',
        decreases i,
    {
        let c = p.get_char(i - 1);
        if c == '.' || c == '/' {
            proof {
                lemma_last_mark_prefix(p@, i as int);
                assert(p@.subrange(0, i as int).drop_last() =~= p@.subrange(0, i - 1));
            }
            return Some(i - 1);
        }
        i = i - 1;
    }
    proof {
        lemma_last_mark_prefix(p@, 0);
    }
    None
}

/// Index of the dot that starts the extension of `p`.
fn find_ext_dot(p: &str) -> (r: Option<usize>)
    ensures
        match r {
            Some(d) => ext_dot(p@) == Some(d as int) && (d as int) < p@.len(),
            None => ext_dot(p@) is None,
        },
{
    proof {
        lemma_last_mark_bounds(p@);
    }
    match find_last_mark(p) {
        Some(d) => {
            if d >= 1 && p.get_char(d) == '.' && p.get_char(d - 1) != '/' {
                Some(d)
            } else {
                None
            }
        },
        None => None,
    }
}

/// The extension of the file that `p` names, as `Path::extension` reads it.
pub fn extension(p: &str) -> (r: Option<String>)
    ensures
        match r {
            Some(e) => extension_of(p@) == Some(e@),
            None => extension_of(p@) is None,
        },
{
    match find_ext_dot(p) {
        Some(d) => {
            let n = p.unicode_len();
            Some(String::from_str(p.substring_char(d + 1, n)))
        },
        None => None,
    }
}

/// `p` with the extension of its file name replaced by `ext`, as
/// `Path::with_extension` builds it.
pub fn with_extension(p: &str, ext: &str) -> (r: String)
    ensures
        r@ == replace_ext(p@, ext@),
{
    let mut r = match find_ext_dot(p) {
        Some(d) => String::from_str(p.substring_char(0, d)),
        None => String::from_str(p),
    };
    if ext.unicode_len() > 0 {
        r.append(".");
        r.append(ext);
        proof {
            reveal_strlit(".");
            assert(r@ =~= replace_ext(p@, ext@));
        }
    }
    r
}

} // verus!
