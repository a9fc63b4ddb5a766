//! The objects of a level, as stored in its compressed level string.

use vstd::prelude::*;
use vstd::utf8::encode_utf8;
use crate::encoding::{
    base64_decode, base64_decoded, base64_encode, base64_encoded, gz_compress, gz_decompress,
    gz_deflated, gz_inflated, zlib_decompress, zlib_inflated,
};
use crate::serde::lemma_join_push;
use crate::serde::thunk::ThunkProcessor;
use crate::split::{free_before, join, lemma_split_join, occurs_at, separable, split, split_exec, views};
use crate::model::level::section::{
    metadata_section_fields, object_section_fields, read_metadata_fields, read_object_fields,
    section_readable,
};
use crate::text::{chars_of, string_from_chars};

verus! {

/// The errors that can occur while processing a level string.
#[derive(Debug, Clone, PartialEq, Eq)]
pub enum LevelProcessError {
    /// An object could not be read.
    Deserialize(String),
    /// An object could not be written.
    Serialize,
    /// The level string is not valid base64.
    Base64,
    /// The decoded level string is neither gzip nor zlib compressed.
    UnknownCompression,
    /// The decoded level string could not be decompressed to UTF-8 text.
    Compression,
    /// The level string holds no metadata section.
    MissingMetadata,
}

/// The sections of a level string: the metadata section, and one section per object. Each section
/// is a `,` separated description in RobTop's indexed format.
#[derive(Debug, PartialEq, Clone)]
pub struct Objects {
    /// The level's metadata section.
    pub meta: String,
    /// The level's object sections.
    pub objects: Vec<String>,
}

/// The abstract value of [`Objects`].
#[verifier::ext_equal]
pub struct ObjectsView {
    pub meta: Seq<char>,
    pub objects: Seq<Seq<char>>,
}

/// The sections of a level, in order.
pub open spec fn sections(o: ObjectsView) -> Seq<Seq<char>> {
    seq![o.meta] + o.objects
}

/// The sections of `s`, each terminated by `d`: the pieces between the delimiters, without the
/// empty piece after a final delimiter.
pub open spec fn split_terminator(s: Seq<char>, d: Seq<char>) -> Seq<Seq<char>> {
    let pieces = split(s, d);
    if pieces.len() > 0 && pieces.last().len() == 0 {
        pieces.drop_last()
    } else {
        pieces
    }
}

/// The sections written one after another, each followed by `;`.
pub open spec fn terminated(secs: Seq<Seq<char>>) -> Seq<char>
    decreases secs.len(),
{
    if secs.len() == 0 {
        seq![]
    } else {
        terminated(secs.drop_last()) + secs.last() + seq![';']
    }
}

/// The text a level's objects are decompressed to.
pub open spec fn level_text(o: ObjectsView) -> Seq<char> {
    terminated(sections(o))
}

/// What decoded level data decompresses to: a gzip stream (magic bytes `1f 8b`) or a zlib stream
/// (first byte `78`).
pub open spec fn decompressed(bytes: Seq<u8>) -> Option<Seq<char>> {
    if bytes.len() < 2 {
        None
    } else if bytes[0] == 0x1f && bytes[1] == 0x8b {
        gz_inflated(bytes)
    } else if bytes[0] == 0x78 {
        zlib_inflated(bytes)
    } else {
        None
    }
}

/// Whether the metadata section and every object section can be read.
pub open spec fn sections_readable(o: ObjectsView) -> bool {
    &&& section_readable(o.meta, metadata_section_fields())
    &&& forall|i: int| 0 <= i < o.objects.len() ==> section_readable(
        #[trigger] o.objects[i],
        object_section_fields(),
    )
}

/// The objects held by the text a level string decompresses to: the metadata section and the
/// object sections, each terminated by `;` (`None`: the text holds no section, or a section
/// cannot be read).
pub open spec fn objects_of_text(text: Seq<char>) -> Option<ObjectsView> {
    let secs = split_terminator(text, seq![';']);
    if secs.len() == 0 {
        None
    } else {
        let o = ObjectsView { meta: secs[0], objects: secs.drop_first() };
        if sections_readable(o) {
            Some(o)
        } else {
            None
        }
    }
}

/// The objects a level string is read as.
pub open spec fn objects_of(raw: Seq<char>) -> Option<ObjectsView> {
    match base64_decoded(raw) {
        Some(bytes) => match decompressed(bytes) {
            Some(text) => objects_of_text(text),
            None => None,
        },
        None => None,
    }
}

/// No section of a level holds the delimiter `;`.
pub open spec fn no_semicolon_in_sections(o: ObjectsView) -> bool {
    forall|i: int| 0 <= i < sections(o).len() ==> !(#[trigger] sections(o)[i]).contains(';')
}

/// The level string objects are written as: their text, gzip compressed and base64 encoded
/// (`None`: the compression fails).
pub open spec fn objects_text(o: ObjectsView) -> Option<Seq<char>> {
    match gz_deflated(encode_utf8(level_text(o))) {
        Some(compressed) => Some(base64_encoded(compressed)),
        None => None,
    }
}

impl Objects {
    /// Reads the sections of the text a level string decompresses to: the metadata section and
    /// one section per object, each terminated by `;`. Fails with `MissingMetadata` when the text
    /// holds no section, and with `Deserialize` when a section cannot be read.
    pub fn from_level_text(text: &str) -> (res: Result<Objects, LevelProcessError>)
        ensures
            match res {
                Ok(o) => objects_of_text(text@) == Some(Objects::output_view(o)),
                Err(e) => objects_of_text(text@) is None && if split_terminator(text@, seq![';']).len()
                    == 0 {
                    e is MissingMetadata
                } else {
                    e is Deserialize
                },
            },
    {
        let chars = chars_of(text);
        let semicolon = vec![';'];
        assert(semicolon@ =~= seq![';']);
        let mut parts = split_exec(chars.as_slice(), semicolon.as_slice());
        let ghost pieces = split(text@, seq![';']);
        assert(views(parts@).len() == parts@.len());
        if parts.len() > 0 && parts[parts.len() - 1].len() == 0 {
            assert(pieces.last().len() == 0);
            parts.pop();
            assert(views(parts@) =~= pieces.drop_last());
        }
        let ghost secs = split_terminator(text@, seq![';']);
        assert(views(parts@) == secs);
        if parts.len() == 0 {
            return Err(LevelProcessError::MissingMetadata);
        }
        let meta = string_from_chars(parts[0].as_slice());
        let mut objects: Vec<String> = Vec::new();
        let mut i: usize = 1;
        while i < parts.len()
            invariant
                1 <= i <= parts@.len(),
                views(parts@) == secs,
                objects@.len() == i - 1,
                forall|k: int| 0 <= k < i - 1 ==> #[trigger] objects@[k]@ == secs[k + 1],
            decreases parts@.len() - i,
        {
            let s = string_from_chars(parts[i].as_slice());
            assert(s@ == secs[i as int]);
            objects.push(s);
            i = i + 1;
        }
        assert(objects@.map_values(|s: String| s@) =~= secs.drop_first());
        let res = Objects { meta, objects };
        let ghost o = Objects::output_view(res);
        assert(o =~= ObjectsView { meta: secs[0], objects: secs.drop_first() });
        if let Err(e) = read_metadata_fields(res.meta.as_str()) {
            return Err(LevelProcessError::Deserialize(e.message()));
        }
        let mut j: usize = 0;
        while j < res.objects.len()
            invariant
                o == Objects::output_view(res),
                o == (ObjectsView { meta: secs[0], objects: secs.drop_first() }),
                secs.len() > 0,
                secs == split_terminator(text@, seq![';']),
                j <= res.objects@.len(),
                section_readable(o.meta, metadata_section_fields()),
                forall|k: int| 0 <= k < j ==> section_readable(
                    #[trigger] o.objects[k],
                    object_section_fields(),
                ),
            decreases res.objects@.len() - j,
        {
            if let Err(e) = read_object_fields(res.objects[j].as_str()) {
                assert(o.objects[j as int] == res.objects@[j as int]@);
                assert(!section_readable(o.objects[j as int], object_section_fields()));
                return Err(LevelProcessError::Deserialize(e.message()));
            }
            j = j + 1;
        }
        Ok(res)
    }

    /// The text the sections are stored as before compression: each section followed by `;`.
    pub fn to_level_text(&self) -> (res: String)
        ensures
            res@ == level_text(Objects::output_view(*self)),
    {
        let ghost secs = sections(Objects::output_view(*self));
        let mut text = self.meta.clone();
        text.append(";");
        proof {
            reveal_strlit(";");
            assert(secs.take(1) =~= seq![self.meta@]);
            assert(secs.take(1).drop_last() =~= Seq::<Seq<char>>::empty());
            assert(terminated(Seq::<Seq<char>>::empty()) =~= Seq::<char>::empty());
            assert(text@ =~= terminated(secs.take(1)));
        }
        let mut i: usize = 0;
        while i < self.objects.len()
            invariant
                secs == sections(Objects::output_view(*self)),
                i <= self.objects@.len(),
                text@ == terminated(secs.take(i + 1)),
            decreases self.objects@.len() - i,
        {
            text.append(self.objects[i].as_str());
            text.append(";");
            proof {
                reveal_strlit(";");
                assert(secs.take(i + 2).drop_last() =~= secs.take(i + 1));
                assert(secs.take(i + 2).last() == self.objects@[i as int]@);
                assert(text@ =~= terminated(secs.take(i + 2)));
            }
            i = i + 1;
        }
        assert(secs.take(secs.len() as int) =~= secs);
        text
    }
}

impl ThunkProcessor for Objects {
    type Output = Objects;
    type Abstract = ObjectsView;
    type Error = LevelProcessError;

    open spec fn output_view(processed: Objects) -> ObjectsView {
        ObjectsView { meta: processed.meta@, objects: processed.objects@.map_values(|s: String| s@) }
    }

    open spec fn decoded(raw: Seq<char>) -> Option<ObjectsView> {
        objects_of(raw)
    }

    open spec fn encoded(processed: ObjectsView) -> Option<Seq<char>> {
        objects_text(processed)
    }

    open spec fn reads_back(processed: ObjectsView) -> bool {
        no_semicolon_in_sections(processed) && sections_readable(processed)
    }

    open spec fn process_error(raw: Seq<char>, e: LevelProcessError) -> bool {
        match base64_decoded(raw) {
            None => e is Base64,
            Some(b) => if !(b.len() >= 2 && ((b[0] == 0x1f && b[1] == 0x8b) || b[0] == 0x78)) {
                e is UnknownCompression
            } else {
                match decompressed(b) {
                    None => e is Compression,
                    Some(text) => if split_terminator(text, seq![';']).len() == 0 {
                        e is MissingMetadata
                    } else {
                        e is Deserialize
                    },
                }
            },
        }
    }

    open spec fn write_error(processed: ObjectsView, e: LevelProcessError) -> bool {
        e is Compression
    }

    fn from_unprocessed(unprocessed: &str) -> (res: Result<Objects, LevelProcessError>) {
        let decoded = match base64_decode(unprocessed) {
            Some(b) => b,
            None => {
                return Err(LevelProcessError::Base64);
            },
        };
        if decoded.len() < 2 {
            return Err(LevelProcessError::UnknownCompression);
        }
        let text = if decoded[0] == 0x1f && decoded[1] == 0x8b {
            match gz_decompress(decoded.as_slice()) {
                Some(t) => t,
                None => {
                    return Err(LevelProcessError::Compression);
                },
            }
        } else if decoded[0] == 0x78 {
            match zlib_decompress(decoded.as_slice()) {
                Some(t) => t,
                None => {
                    return Err(LevelProcessError::Compression);
                },
            }
        } else {
            return Err(LevelProcessError::UnknownCompression);
        };
        Objects::from_level_text(text.as_str())
    }

    fn as_unprocessed(processed: &Objects) -> (res: Result<String, LevelProcessError>) {
        let text = processed.to_level_text();
        match gz_compress(text.as_str()) {
            Some(compressed) => {
                let res = base64_encode(compressed.as_slice());
                proof {
                    if no_semicolon_in_sections(Objects::output_view(*processed))
                        && sections_readable(Objects::output_view(*processed)) {
                        lemma_objects_roundtrip(Objects::output_view(*processed));
                    }
                }
                Ok(res)
            },
            None => Err(LevelProcessError::Compression),
        }
    }

    fn copy_output(processed: &Objects) -> (res: Objects) {
        let mut objects: Vec<String> = Vec::new();
        let mut i: usize = 0;
        while i < processed.objects.len()
            invariant
                i <= processed.objects@.len(),
                objects@.len() == i,
                forall|k: int| 0 <= k < i ==> #[trigger] objects@[k]@ == processed.objects@[k]@,
            decreases processed.objects@.len() - i,
        {
            objects.push(processed.objects[i].clone());
            i = i + 1;
        }
        assert(objects@.map_values(|s: String| s@) =~= processed.objects@.map_values(
            |s: String| s@,
        ));
        Objects { meta: processed.meta.clone(), objects }
    }
}

/// A section without `;` cannot hide the delimiter `;`.
proof fn lemma_free_of_semicolon(t: Seq<char>)
    requires
        !t.contains(';'),
    ensures
        free_before(t, seq![';']),
{
    let d = seq![';'];
    assert forall|j: int| 0 <= j < t.len() implies !occurs_at(t + d, d, j) by {
        if occurs_at(t + d, d, j) {
            assert((t + d).subrange(j, j + 1)[0] == (t + d)[j]);
            assert(t[j] == ';');
        }
    }
}

/// Sections each followed by `;` are the sections joined by `;`, with one more `;` at the end.
proof fn lemma_terminated_join(secs: Seq<Seq<char>>)
    requires
        secs.len() > 0,
    ensures
        terminated(secs) == join(secs.push(Seq::empty()), seq![';']),
    decreases secs.len(),
{
    let d = seq![';'];
    lemma_join_push(secs, Seq::empty(), d);
    if secs.len() == 1 {
        assert(secs.drop_last() =~= Seq::<Seq<char>>::empty());
        assert(terminated(Seq::<Seq<char>>::empty()) =~= Seq::<char>::empty());
        assert(terminated(secs) =~= secs[0] + d);
    } else {
        lemma_terminated_join(secs.drop_last());
        lemma_join_push(secs.drop_last(), Seq::empty(), d);
        lemma_join_push(secs.drop_last(), secs.last(), d);
        assert(secs.drop_last().push(secs.last()) =~= secs);
        assert(terminated(secs) =~= join(secs, d) + d);
    }
    assert(join(secs, d) + d + Seq::<char>::empty() =~= join(secs, d) + d);
}

/// The sections of a level string read back from what they were written as, provided that no
/// section holds a `;`, that every section can be read, and that the compression and encoding give back what they were handed (as
/// [`gz_compress`] and [`base64_encode`] state).
pub proof fn lemma_objects_roundtrip(o: ObjectsView)
    requires
        no_semicolon_in_sections(o),
        sections_readable(o),
        gz_deflated(encode_utf8(level_text(o))) matches Some(compressed) && {
            &&& base64_decoded(base64_encoded(compressed)) == Some(compressed)
            &&& compressed.len() >= 2
            &&& compressed[0] == 0x1f && compressed[1] == 0x8b
            &&& gz_inflated(compressed) == Some(level_text(o))
        },
    ensures
        objects_text(o) matches Some(t) && objects_of(t) == Some(o),
{
    let secs = sections(o);
    let d = seq![';'];
    let all = secs.push(Seq::<char>::empty());
    assert forall|i: int| 0 <= i < all.len() implies free_before(#[trigger] all[i], d) by {
        if i < secs.len() {
            lemma_free_of_semicolon(secs[i]);
        } else {
            assert(all[i] =~= Seq::<char>::empty());
            lemma_free_of_semicolon(Seq::empty());
        }
    }
    crate::serde::lemma_all_free_separable(all, d);
    lemma_split_join(all, d);
    lemma_terminated_join(secs);
    assert(split(level_text(o), d) == all);
    assert(all.drop_last() =~= secs);
    assert(split_terminator(level_text(o), d) == secs);
    assert(secs.drop_first() =~= o.objects);
    assert(ObjectsView { meta: secs[0], objects: secs.drop_first() } =~= o);
}

} // verus!
