//! The template library: named luminance rasters loaded once before a
//! session starts.
//!
//! A directory entry contributes a template when its name carries a
//! recognized image extension after its last dot; the template's name
//! is the file stem. Decoding goes through the `image` crate behind
//! one trusted wrapper; everything around it — name derivation,
//! luminance conversion, the name-to-raster mapping with its last-one-
//! wins overwrite — is verified.

use vstd::prelude::*;
use vstd::string::StrSliceExecFns;

use crate::raster::{luma_plane, rgba_to_luma_raster, LumaRaster, RgbaRaster};
use crate::text::str_eq;

verus! {

/// Position i holds a dot with no later dot: the extension separator.
pub open spec fn is_last_dot(s: Seq<char>, i: int) -> bool {
    &&& 0 <= i < s.len()
    &&& s[i] == '.'
    &&& forall|j: int| i < j < s.len() ==> s[j] != '.'
}

/// The extensions a template image may carry, matched exactly.
pub open spec fn allowed_ext(e: Seq<char>) -> bool {
    e == "png"@ || e == "jpg"@ || e == "jpeg"@
}

/// The template name a file of this name contributes: its stem, when
/// the name has a recognized extension after a last dot that is not
/// its first character; None for every other file.
pub open spec fn template_stem(s: Seq<char>) -> Option<Seq<char>> {
    if exists|i: int| is_last_dot(s, i) {
        let i = choose|i: int| is_last_dot(s, i);
        if 1 <= i && allowed_ext(s.subrange(i + 1, s.len() as int)) {
            Some(s.subrange(0, i))
        } else {
            None
        }
    } else {
        None
    }
}

/// A name has at most one last dot.
proof fn lemma_last_dot_unique(s: Seq<char>, i: int, j: int)
    requires
        is_last_dot(s, i),
        is_last_dot(s, j),
    ensures
        i == j,
{
    if i < j {
        assert(s[j] != '.');
    }
    if j < i {
        assert(s[i] != '.');
    }
}

/// Derives the template name from a file name, exactly as
/// `template_stem` describes.
pub fn template_name(filename: &str) -> (r: Option<String>)
    ensures
        r is Some <==> template_stem(filename@) is Some,
        r matches Some(s) ==> template_stem(filename@) == Some(s@),
{
    let n: usize = filename.unicode_len();
    let mut i: usize = 0;
    let mut dot: usize = n;
    while i < n
        invariant
            n == filename@.len(),
            i <= n,
            dot == n || (dot < i && filename@[dot as int] == '.'),
            dot == n ==> forall|k: int| 0 <= k < i ==> filename@[k] != '.',
            dot < n ==> forall|k: int| dot < k < i ==> filename@[k] != '.',
        decreases n - i,
    {
        if filename.get_char(i) == '.' {
            dot = i;
        }
        i = i + 1;
    }
    if dot == n {
        proof {
            assert forall|k: int| !is_last_dot(filename@, k) by {
                if 0 <= k < n {
                    assert(filename@[k] != '.');
                }
            }
        }
        return None;
    }
    proof {
        assert(is_last_dot(filename@, dot as int));
        let c: int = choose|k: int| is_last_dot(filename@, k);
        lemma_last_dot_unique(filename@, dot as int, c);
    }
    if dot == 0 {
        return None;
    }
    let ext: &str = filename.substring_char(dot + 1, n);
    let ok_ext: bool = str_eq(ext, "png") || str_eq(ext, "jpg") || str_eq(ext, "jpeg");
    if !ok_ext {
        return None;
    }
    let stem: &str = filename.substring_char(0, dot);
    Some(stem.to_owned())
}

/// What decoding yields for a given byte string: the image's width,
/// height and raw RGBA pixel buffer, or None for bytes that are not a
/// decodable image. Decoding is a function of the bytes alone.
pub uninterp spec fn decoded_rgba(bytes: Seq<u8>) -> Option<(u32, u32, Seq<u8>)>;

/// Relies on image::load_from_memory and DynamicImage::to_rgba8: the
/// decoded image is determined by the encoded bytes alone, and the raw
/// buffer of an RGBA image holds exactly width * height 4-byte pixels.
#[verifier::external_body]
fn decode_rgba(bytes: &Vec<u8>) -> (r: Option<RgbaRaster>)
    ensures
        r is Some <==> decoded_rgba(bytes@) is Some,
        r matches Some(img) ==> decoded_rgba(bytes@) == Some(
            (img.width, img.height, img.pixels@),
        ) && img.wf(),
{
    match image::load_from_memory(bytes.as_slice()) {
        Ok(decoded) => {
            let rgba = decoded.to_rgba8();
            let (width, height) = rgba.dimensions();
            Some(RgbaRaster { width, height, pixels: rgba.into_raw() })
        },
        Err(_) => None,
    }
}

/// A library of named templates; names are unique, a later load of an
/// existing name overwrites the earlier image.
pub struct TemplateLibrary {
    pub entries: Vec<(String, LumaRaster)>,
}

impl View for TemplateLibrary {
    type V = Map<Seq<char>, (u32, u32, Seq<u32>)>;

    /// The mapping the library denotes: template name to the
    /// dimensions and samples of its luminance raster.
    open spec fn view(&self) -> Map<Seq<char>, (u32, u32, Seq<u32>)> {
        Map::new(
            |name: Seq<char>| self.has_name(name),
            |name: Seq<char>|
                {
                    let i = self.index_of(name);
                    (
                        self.entries@[i].1.width,
                        self.entries@[i].1.height,
                        self.entries@[i].1.data@,
                    )
                },
        )
    }
}

impl TemplateLibrary {
    /// The name of the i-th entry.
    pub open spec fn name_at(&self, i: int) -> Seq<char> {
        self.entries@[i].0@
    }

    /// Some entry carries this name.
    pub open spec fn has_name(&self, name: Seq<char>) -> bool {
        exists|i: int| 0 <= i < self.entries@.len() && #[trigger] self.name_at(i) == name
    }

    /// The index of the entry carrying this name.
    pub open spec fn index_of(&self, name: Seq<char>) -> int {
        choose|i: int| 0 <= i < self.entries@.len() && #[trigger] self.name_at(i) == name
    }

    /// Rasters are well-formed and no two entries share a name.
    pub open spec fn wf(&self) -> bool {
        &&& forall|i: int| 0 <= i < self.entries@.len() ==> (#[trigger] self.entries@[i]).1.wf()
        &&& forall|i: int, j: int|
            0 <= i < j < self.entries@.len() ==> self.name_at(i) != self.name_at(j)
    }

    /// An empty library.
    pub fn new() -> (lib: TemplateLibrary)
        ensures
            lib.wf(),
            lib@ == Map::<Seq<char>, (u32, u32, Seq<u32>)>::empty(),
            lib.entries@.len() == 0,
    {
        let lib = TemplateLibrary { entries: Vec::new() };
        proof {
            assert(lib@ =~= Map::<Seq<char>, (u32, u32, Seq<u32>)>::empty());
        }
        lib
    }

    /// Number of templates held.
    pub fn len(&self) -> (n: usize)
        ensures
            n == self.entries@.len(),
    {
        self.entries.len()
    }

    /// Adds a template under a name; an entry already carrying the
    /// name is overwritten, so the library is exactly the old mapping
    /// with this one binding inserted.
    #[verifier::loop_isolation(false)]
    pub fn insert(&mut self, name: String, raster: LumaRaster)
        requires
            old(self).wf(),
            raster.wf(),
        ensures
            final(self).wf(),
            final(self)@ == old(self)@.insert(
                name@,
                (raster.width, raster.height, raster.data@),
            ),
            final(self).entries@.len() <= old(self).entries@.len() + 1,
    {
        let n: usize = self.entries.len();
        let mut i: usize = 0;
        while i < n
            invariant
                n == self.entries@.len(),
                i <= n,
                *self == *old(self),
                forall|k: int| 0 <= k < i ==> #[trigger] self.name_at(k) != name@,
            decreases n - i,
        {
            let hit: bool = str_eq(self.entries[i].0.as_str(), name.as_str());
            if hit {
                self.entries.set(i, (name, raster));
                proof {
                    lemma_view_after_set(*old(self), *self, i as int, name@);
                }
                return;
            }
            i = i + 1;
        }
        self.entries.push((name, raster));
        proof {
            lemma_view_after_push(*old(self), *self, name@);
        }
    }
}

/// Replacing the entry that carried a name yields the map with that
/// binding overwritten.
proof fn lemma_view_after_set(pre: TemplateLibrary, post: TemplateLibrary, i: int, name: Seq<char>)
    requires
        pre.wf(),
        0 <= i < pre.entries@.len(),
        pre.name_at(i) == name,
        post.entries@.len() == pre.entries@.len(),
        post.name_at(i) == name,
        post.entries@[i].1.wf(),
        forall|k: int|
            0 <= k < pre.entries@.len() && k != i ==> post.entries@[k] == pre.entries@[k],
    ensures
        post.wf(),
        post@ == pre@.insert(
            name,
            (post.entries@[i].1.width, post.entries@[i].1.height, post.entries@[i].1.data@),
        ),
{
    let len = pre.entries@.len() as int;
    assert forall|a: int, b: int| 0 <= a < b < len implies post.name_at(a) != post.name_at(b) by {
        assert(pre.name_at(a) != pre.name_at(b));
    }
    let v = (post.entries@[i].1.width, post.entries@[i].1.height, post.entries@[i].1.data@);
    assert forall|nm: Seq<char>| post@.dom().contains(nm) <==> pre@.insert(
        name,
        v,
    ).dom().contains(nm) by {
        if nm == name {
            assert(post.name_at(i) == nm);
            assert(post.has_name(nm));
        } else {
            if post.has_name(nm) {
                let k = choose|k: int|
                    0 <= k < post.entries@.len() && #[trigger] post.name_at(k) == nm;
                assert(k != i);
                assert(pre.name_at(k) == nm);
                assert(pre.has_name(nm));
            }
            if pre.has_name(nm) {
                let k = choose|k: int|
                    0 <= k < pre.entries@.len() && #[trigger] pre.name_at(k) == nm;
                assert(k != i);
                assert(post.name_at(k) == nm);
                assert(post.has_name(nm));
            }
        }
    }
    assert forall|nm: Seq<char>| post@.dom().contains(nm) implies post@[nm] == pre@.insert(
        name,
        v,
    )[nm] by {
        let k = post.index_of(nm);
        assert(0 <= k < post.entries@.len() && post.name_at(k) == nm);
        if nm == name {
            if k != i {
                assert(pre.name_at(k) == nm);
                assert(pre.name_at(i) == nm);
                assert(false);
            }
            assert(post@[nm] == v);
        } else {
            assert(k != i);
            assert(pre.name_at(k) == nm);
            let k2 = pre.index_of(nm);
            assert(0 <= k2 < pre.entries@.len() && pre.name_at(k2) == nm);
            if k2 != k {
                assert(pre.name_at(k2) != pre.name_at(k));
                assert(false);
            }
            assert(k2 != i);
        }
    }
    assert(post@ =~= pre@.insert(name, v));
}

/// Appending an entry under a fresh name yields the map with that
/// binding inserted.
proof fn lemma_view_after_push(pre: TemplateLibrary, post: TemplateLibrary, name: Seq<char>)
    requires
        pre.wf(),
        !pre.has_name(name),
        post.entries@.len() == pre.entries@.len() + 1,
        post.name_at(pre.entries@.len() as int) == name,
        post.entries@[pre.entries@.len() as int].1.wf(),
        forall|k: int| 0 <= k < pre.entries@.len() ==> post.entries@[k] == pre.entries@[k],
    ensures
        post.wf(),
        post@ == pre@.insert(
            name,
            (
                post.entries@[pre.entries@.len() as int].1.width,
                post.entries@[pre.entries@.len() as int].1.height,
                post.entries@[pre.entries@.len() as int].1.data@,
            ),
        ),
{
    let n = pre.entries@.len() as int;
    assert forall|a: int, b: int| 0 <= a < b < n + 1 implies post.name_at(a) != post.name_at(b) by {
        if b < n {
            assert(pre.name_at(a) != pre.name_at(b));
        } else {
            assert(post.name_at(b) == name);
            assert(post.name_at(a) == pre.name_at(a));
            if pre.name_at(a) == name {
                assert(pre.has_name(name));
                assert(false);
            }
        }
    }
    let v = (post.entries@[n].1.width, post.entries@[n].1.height, post.entries@[n].1.data@);
    assert forall|nm: Seq<char>| post@.dom().contains(nm) <==> pre@.insert(
        name,
        v,
    ).dom().contains(nm) by {
        if nm == name {
            assert(post.name_at(n) == nm);
            assert(post.has_name(nm));
        } else {
            if post.has_name(nm) {
                let k = choose|k: int|
                    0 <= k < post.entries@.len() && #[trigger] post.name_at(k) == nm;
                assert(k != n);
                assert(pre.name_at(k) == nm);
                assert(pre.has_name(nm));
            }
            if pre.has_name(nm) {
                let k = choose|k: int|
                    0 <= k < pre.entries@.len() && #[trigger] pre.name_at(k) == nm;
                assert(post.name_at(k) == nm);
                assert(post.has_name(nm));
            }
        }
    }
    assert forall|nm: Seq<char>| post@.dom().contains(nm) implies post@[nm] == pre@.insert(
        name,
        v,
    )[nm] by {
        let k = post.index_of(nm);
        assert(0 <= k < post.entries@.len() && post.name_at(k) == nm);
        if nm == name {
            if k != n {
                assert(pre.name_at(k) == nm);
                assert(pre.has_name(nm));
                assert(false);
            }
            assert(post@[nm] == v);
        } else {
            assert(k != n);
            assert(pre.name_at(k) == nm);
            let k2 = pre.index_of(nm);
            assert(0 <= k2 < pre.entries@.len() && pre.name_at(k2) == nm);
            if k2 != k {
                assert(pre.name_at(k2) != pre.name_at(k));
                assert(false);
            }
        }
    }
    assert(post@ =~= pre@.insert(name, v));
}

/// Loading a second file whose base name repeats an earlier one leaves
/// exactly one entry for that name, holding the later image: the later
/// load overwrites the earlier, whichever order the two arrive in.
pub proof fn lemma_same_name_overwrites(
    m: Map<Seq<char>, (u32, u32, Seq<u32>)>,
    name: Seq<char>,
    v1: (u32, u32, Seq<u32>),
    v2: (u32, u32, Seq<u32>),
)
    ensures
        m.insert(name, v1).insert(name, v2) == m.insert(name, v2),
{
    assert(m.insert(name, v1).insert(name, v2) =~= m.insert(name, v2));
}

/// What one file contributed to the library.
pub enum LoadOutcome {
    /// The file decoded; its luminance raster now stands in the
    /// library under the file's stem.
    Added,
    /// The file name carries no recognized image extension; ignored.
    NotATemplate,
    /// The name qualified but the bytes would not decode; skipped.
    DecodeFailed,
}

impl TemplateLibrary {
    /// Offers one directory entry to the library: derives the template
    /// name from the file name, decodes the bytes, converts to
    /// luminance and inserts under the name, overwriting an earlier
    /// file of the same stem. Only a file that is not a template or
    /// that fails to decode leaves the library unchanged.
    pub fn load_template(&mut self, filename: &str, bytes: &Vec<u8>) -> (r: LoadOutcome)
        requires
            old(self).wf(),
        ensures
            final(self).wf(),
            r is Added <==> template_stem(filename@) is Some && decoded_rgba(bytes@) is Some,
            r is NotATemplate <==> template_stem(filename@) is None,
            r is DecodeFailed <==> template_stem(filename@) is Some && decoded_rgba(bytes@)
                is None,
            match (template_stem(filename@), decoded_rgba(bytes@)) {
                (Some(stem), Some(dec)) => final(self)@ == old(self)@.insert(
                    stem,
                    (dec.0, dec.1, luma_plane(dec.0, dec.1, dec.2)),
                ),
                _ => final(self)@ == old(self)@,
            },
    {
        let name: Option<String> = template_name(filename);
        match name {
            None => LoadOutcome::NotATemplate,
            Some(stem) => {
                match decode_rgba(bytes) {
                    None => LoadOutcome::DecodeFailed,
                    Some(img) => {
                        let raster: LumaRaster = rgba_to_luma_raster(&img);
                        self.insert(stem, raster);
                        LoadOutcome::Added
                    },
                }
            },
        }
    }
}

} // verus!
