use vstd::prelude::*;
use crate::media::{ExtensionMap, MediaType, lower_of, lowercase, rank};
use crate::path::{extension, extension_of};

verus! {

/// A file of the walked tree together with its media type.
#[derive(Debug)]
pub struct MediaIndex {
    pub path: String,
    pub media_type: MediaType,
}

impl View for MediaIndex {
    type V = (Seq<char>, MediaType);

    open spec fn view(&self) -> (Seq<char>, MediaType) {
        (self.path@, self.media_type)
    }
}

/// The entries of an index as paths and media types.
pub open spec fn entries_view(v: Seq<MediaIndex>) -> Seq<(Seq<char>, MediaType)> {
    v.map_values(|e: MediaIndex| e@)
}

/// The media type of the file that `p` names: its extension, lowercased, looked
/// up in `map`. A file without an extension has none.
pub open spec fn media_type_of(map: ExtensionMap, p: Seq<char>) -> Option<MediaType> {
    match extension_of(p) {
        Some(e) => map.lookup(lower_of(e)),
        None => None,
    }
}

/// The files of `files` whose media type is `t`, in their order, each with `t`.
pub open spec fn entries_of_type(map: ExtensionMap, files: Seq<String>, t: MediaType) -> Seq<
    (Seq<char>, MediaType),
>
    decreases files.len(),
{
    if files.len() == 0 {
        Seq::empty()
    } else {
        let before = entries_of_type(map, files.drop_last(), t);
        if media_type_of(map, files.last()@) == Some(t) {
            before.push((files.last()@, t))
        } else {
            before
        }
    }
}

/// The index of `files`: the files that have a media type, images first, then
/// audio, then video, each group in the order of `files`.
pub open spec fn index_of(map: ExtensionMap, files: Seq<String>) -> Seq<(Seq<char>, MediaType)> {
    entries_of_type(map, files, MediaType::Image) + entries_of_type(map, files, MediaType::Audio)
        + entries_of_type(map, files, MediaType::Video)
}

proof fn lemma_entries_of_type_members(map: ExtensionMap, files: Seq<String>, t: MediaType)
    ensures
        forall|j: int|
            0 <= j < entries_of_type(map, files, t).len() ==> {
                let e = #[trigger] entries_of_type(map, files, t)[j];
                e.1 == t && media_type_of(map, e.0) == Some(t)
            },
    decreases files.len(),
{
    if files.len() > 0 {
        lemma_entries_of_type_members(map, files.drop_last(), t);
    }
}

/// Every entry of an index carries the media type of its file, so a file
/// whose extension is missing or unmapped is in no entry.
pub proof fn law_index_only_classified(map: ExtensionMap, files: Seq<String>)
    ensures
        forall|j: int|
            0 <= j < index_of(map, files).len() ==> media_type_of(map, index_of(map, files)[j].0)
                == Some(#[trigger] index_of(map, files)[j].1),
{
    lemma_entries_of_type_members(map, files, MediaType::Image);
    lemma_entries_of_type_members(map, files, MediaType::Audio);
    lemma_entries_of_type_members(map, files, MediaType::Video);
}

/// A file whose extension is missing or not in the table is left out of the
/// index.
pub proof fn law_unmapped_excluded(map: ExtensionMap, files: Seq<String>, p: Seq<char>)
    requires
        media_type_of(map, p) is None,
    ensures
        forall|j: int| 0 <= j < index_of(map, files).len() ==> #[trigger] index_of(map, files)[j].0 != p,
{
    law_index_only_classified(map, files);
    assert forall|j: int| 0 <= j < index_of(map, files).len() implies #[trigger] index_of(map, files)[j].0 != p by {
        assert(media_type_of(map, index_of(map, files)[j].0) == Some(index_of(map, files)[j].1));
    }
}

/// The index is grouped by media type: images, then audio, then video.
pub proof fn law_index_sorted(map: ExtensionMap, files: Seq<String>)
    ensures
        forall|i: int, j: int|
            0 <= i < j < index_of(map, files).len() ==> rank(#[trigger] index_of(map, files)[i].1)
                <= rank(#[trigger] index_of(map, files)[j].1),
{
    lemma_entries_of_type_members(map, files, MediaType::Image);
    lemma_entries_of_type_members(map, files, MediaType::Audio);
    lemma_entries_of_type_members(map, files, MediaType::Video);
    let a = entries_of_type(map, files, MediaType::Image);
    let b = entries_of_type(map, files, MediaType::Audio);
    let c = entries_of_type(map, files, MediaType::Video);
    let s = index_of(map, files);
    assert forall|j: int| 0 <= j < s.len() implies rank(#[trigger] s[j].1) == if j < a.len() {
        0nat
    } else if j < a.len() + b.len() {
        1
    } else {
        2
    } by {
        if j < a.len() {
            assert(s[j] == a[j]);
        } else if j < a.len() + b.len() {
            assert(s[j] == b[j - a.len()]);
        } else {
            assert(s[j] == c[j - a.len() - b.len()]);
        }
    }
}

/// Classification ignores case: two files whose extensions lowercase alike
/// have the same media type.
pub proof fn law_classify_ignores_case(
    map: ExtensionMap,
    p: Seq<char>,
    q: Seq<char>,
    ext_p: Seq<char>,
    ext_q: Seq<char>,
)
    requires
        extension_of(p) == Some(ext_p),
        extension_of(q) == Some(ext_q),
        lower_of(ext_p) == lower_of(ext_q),
    ensures
        media_type_of(map, p) == media_type_of(map, q),
{
}

/// The media type of the file that `path` names under `extensions`.
pub fn classify(path: &str, extensions: &ExtensionMap) -> (r: Option<MediaType>)
    ensures
        r == media_type_of(*extensions, path@),
{
    match extension(path) {
        Some(ext) => {
            let lower = lowercase(ext.as_str());
            extensions.get(&lower)
        },
        None => None,
    }
}

/// Appends to `out` the files of `files` whose media type, as `kinds` gives
/// it, is `t`.
fn push_of_type(
    files: &Vec<String>,
    kinds: &Vec<Option<MediaType>>,
    extensions: &ExtensionMap,
    t: MediaType,
    out: &mut Vec<MediaIndex>,
)
    requires
        kinds@.len() == files@.len(),
        forall|j: int|
            0 <= j < files@.len() ==> kinds@[j] == media_type_of(*extensions, files@[j]@),
    ensures
        entries_view(final(out)@) == entries_view(old(out)@) + entries_of_type(
            *extensions,
            files@,
            t,
        ),
{
    let mut i: usize = 0;
    proof {
        assert(files@.subrange(0, 0) =~= Seq::<String>::empty());
        assert(entries_view(old(out)@) + Seq::empty() =~= entries_view(old(out)@));
    }
    while i < files.len()
        invariant
            i <= files@.len() == kinds@.len(),
            forall|j: int|
                0 <= j < files@.len() ==> kinds@[j] == media_type_of(*extensions, files@[j]@),
            entries_view(out@) == entries_view(old(out)@) + entries_of_type(
                *extensions,
                files@.subrange(0, i as int),
                t,
            ),
        decreases files@.len() - i,
    {
        let ghost prev = out@;
        proof {
            assert(files@.subrange(0, i + 1).drop_last() =~= files@.subrange(0, i as int));
        }
        if kinds[i] == Some(t) {
            out.push(MediaIndex { path: files[i].clone(), media_type: t });
            proof {
                assert(entries_view(out@) =~= entries_view(prev).push((files@[i as int]@, t)));
            }
        }
        i = i + 1;
    }
    proof {
        assert(files@.subrange(0, files@.len() as int) =~= files@);
    }
}

/// The index of the files of a walked tree: each file whose lowercased
/// extension `extensions` maps, with its media type, grouped by media type.
pub fn index(files: &Vec<String>, extensions: &ExtensionMap) -> (r: Vec<MediaIndex>)
    ensures
        entries_view(r@) == index_of(*extensions, files@),
{
    let mut kinds: Vec<Option<MediaType>> = Vec::new();
    let mut i: usize = 0;
    while i < files.len()
        invariant
            i <= files@.len(),
            kinds@.len() == i,
            forall|j: int| 0 <= j < i ==> kinds@[j] == media_type_of(*extensions, files@[j]@),
        decreases files@.len() - i,
    {
        kinds.push(classify(files[i].as_str(), extensions));
        i = i + 1;
    }
    let mut r: Vec<MediaIndex> = Vec::new();
    proof {
        assert(entries_view(r@) =~= Seq::empty());
    }
    push_of_type(files, &kinds, extensions, MediaType::Image, &mut r);
    push_of_type(files, &kinds, extensions, MediaType::Audio, &mut r);
    push_of_type(files, &kinds, extensions, MediaType::Video, &mut r);
    proof {
        assert(entries_view(r@) =~= index_of(*extensions, files@));
    }
    r
}

} // verus!
