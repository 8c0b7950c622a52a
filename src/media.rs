use vstd::prelude::*;

verus! {

/// Coarse category of a media file, chosen from its extension.
#[derive(Clone, Copy, Debug, Hash, PartialEq, Eq, Structural, PartialOrd, Ord)]
pub enum MediaType {
    Image,
    Audio,
    Video,
}

/// Position of a media type in the order in which files are processed.
pub open spec fn rank(t: MediaType) -> nat {
    match t {
        MediaType::Image => 0,
        MediaType::Audio => 1,
        MediaType::Video => 2,
    }
}

/// What `str::to_lowercase` makes of a string.
pub uninterp spec fn lower_of(s: Seq<char>) -> Seq<char>;

/// Relies on `str::to_lowercase`: the result is a function of the characters alone.
#[verifier::external_body]
pub(crate) fn lowercase(s: &str) -> (r: String)
    ensures
        r@ == lower_of(s@),
{
    s.to_lowercase()
}

/// The media type bound to `key` in a list of bindings; a later binding of a key
/// hides the earlier ones.
pub open spec fn lookup_in(s: Seq<(String, MediaType)>, key: Seq<char>) -> Option<MediaType>
    decreases s.len(),
{
    if s.len() == 0 {
        None
    } else if s.last().0@ == key {
        Some(s.last().1)
    } else {
        lookup_in(s.drop_last(), key)
    }
}

/// A table from lowercase file extension to media type.
pub struct ExtensionMap {
    entries: Vec<(String, MediaType)>,
}

impl ExtensionMap {
    /// The media type that the table binds to `key`.
    pub closed spec fn lookup(&self, key: Seq<char>) -> Option<MediaType> {
        lookup_in(self.entries@, key)
    }

    /// An empty table.
    pub fn new() -> (r: ExtensionMap)
        ensures
            forall|k: Seq<char>| r.lookup(k) is None,
    {
        ExtensionMap { entries: Vec::new() }
    }

    /// Binds `ext` to `media_type`, replacing an earlier binding of `ext`.
    pub fn insert(&mut self, ext: &str, media_type: MediaType)
        ensures
            forall|k: Seq<char>|
                #[trigger] final(self).lookup(k) == if k == ext@ {
                    Some(media_type)
                } else {
                    old(self).lookup(k)
                },
    {
        self.entries.push((String::from_str(ext), media_type));
        proof {
            assert(self.entries@.drop_last() =~= old(self).entries@);
        }
    }

    /// The media type bound to `ext`, if any.
    pub fn get(&self, ext: &String) -> (r: Option<MediaType>)
        ensures
            r == self.lookup(ext@),
    {
        let mut i: usize = self.entries.len();
        proof {
            assert(self.entries@.subrange(0, i as int) =~= self.entries@);
        }
        while i > 0
            invariant
                i <= self.entries@.len(),
                lookup_in(self.entries@, ext@) == lookup_in(self.entries@.subrange(0, i as int), ext@),
            decreases i,
        {
            let ghost pre = self.entries@.subrange(0, i as int);
            proof {
                assert(pre.drop_last() =~= self.entries@.subrange(0, i - 1));
            }
            if self.entries[i - 1].0 == *ext {
                return Some(self.entries[i - 1].1);
            }
            i = i - 1;
        }
        proof {
            assert(self.entries@.subrange(0, 0) =~= Seq::<(String, MediaType)>::empty());
        }
        None
    }

    /// The table of the media formats that the tool knows.
    pub fn standard() -> (r: ExtensionMap)
        ensures
            forall|k: Seq<char>| #[trigger] r.lookup(k) == standard_type(k),
    {
        let mut m = ExtensionMap::new();
        m.insert("gif", MediaType::Image);
        m.insert("jpg", MediaType::Image);
        m.insert("jpeg", MediaType::Image);
        m.insert("png", MediaType::Image);
        m.insert("bmp", MediaType::Image);
        m.insert("webp", MediaType::Image);
        m.insert("avif", MediaType::Image);
        m.insert("mp4", MediaType::Video);
        m.insert("avi", MediaType::Video);
        m.insert("mov", MediaType::Video);
        m.insert("flv", MediaType::Video);
        m.insert("mkv", MediaType::Video);
        m.insert("mp3", MediaType::Audio);
        m.insert("wav", MediaType::Audio);
        m.insert("ogg", MediaType::Audio);
        m.insert("flac", MediaType::Audio);
        m.insert("opus", MediaType::Audio);
        m.insert("m4a", MediaType::Audio);
        m.insert("webm", MediaType::Audio);
        m
    }
}

/// The media type of each extension of the standard table.
pub open spec fn standard_type(k: Seq<char>) -> Option<MediaType> {
    if k == "webm"@ || k == "m4a"@ || k == "opus"@ || k == "flac"@ || k == "ogg"@ || k == "wav"@
        || k == "mp3"@ {
        Some(MediaType::Audio)
    } else if k == "mkv"@ || k == "flv"@ || k == "mov"@ || k == "avi"@ || k == "mp4"@ {
        Some(MediaType::Video)
    } else if k == "avif"@ || k == "webp"@ || k == "bmp"@ || k == "png"@ || k == "jpeg"@ || k
        == "jpg"@ || k == "gif"@ {
        Some(MediaType::Image)
    } else {
        None
    }
}

} // verus!
