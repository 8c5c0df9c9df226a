//! The tag stage: descriptive metadata for the stream's embedded tag block.
//!
//! An `Id3Tag` takes ownership of the configuration stage for the length of
//! the tag chain, so no other configuration or build step can interleave
//! with it. Each text setter validates its field and writes the collected
//! fields through to the native tag block at once; `apply` confirms the
//! chain and hands the stage back. The tag block becomes part of the first
//! encoded frames, so the whole chain necessarily completes before the
//! first encode call.

use vstd::prelude::*;
use vstd::string::StringSliceAdditionalSpecFns;

use crate::encoder::{EncoderBuilder, EncoderConfig};
use crate::error::LameError;

verus! {

/// View of an `Option` text field as the byte sequence it holds.
pub open spec fn opt_bytes(o: Option<Vec<u8>>) -> Option<Seq<u8>> {
    match o {
        Some(v) => Some(v@),
        None => None,
    }
}

/// Mathematical model of a tag set: each descriptive field either unset or
/// the bytes (for `track`, the number) it was set to.
pub ghost struct TagSet {
    /// Track title.
    pub title: Option<Seq<u8>>,
    /// Performing artist.
    pub artist: Option<Seq<u8>>,
    /// Album name.
    pub album: Option<Seq<u8>>,
    /// Release year.
    pub year: Option<Seq<u8>>,
    /// Free-form comment.
    pub comment: Option<Seq<u8>>,
    /// Track number.
    pub track: Option<u32>,
    /// Genre name.
    pub genre: Option<Seq<u8>>,
    /// Album artist.
    pub album_artist: Option<Seq<u8>>,
}

impl TagSet {
    /// A fresh tag set: nothing set.
    pub open spec fn empty() -> TagSet {
        TagSet {
            title: None,
            artist: None,
            album: None,
            year: None,
            comment: None,
            track: None,
            genre: None,
            album_artist: None,
        }
    }
}

/// A handed text field in the form the native tag block keeps it: empty
/// bytes mean the field is unset and the native writer skips it.
pub open spec fn committed_field(b: Seq<u8>) -> Option<Seq<u8>> {
    if b.len() == 0 {
        None
    } else {
        Some(b)
    }
}

/// The bytes a tag-set field hands to the native writer: its content, or
/// nothing when unset.
pub open spec fn field_bytes(o: Option<Seq<u8>>) -> Seq<u8> {
    match o {
        Some(b) => b,
        None => Seq::empty(),
    }
}

/// Whether a tag set holds at least one text field the native tag block
/// would keep.
pub open spec fn has_committed_text(t: TagSet) -> bool {
    ||| field_bytes(t.title).len() > 0
    ||| field_bytes(t.artist).len() > 0
    ||| field_bytes(t.album).len() > 0
    ||| field_bytes(t.year).len() > 0
    ||| field_bytes(t.comment).len() > 0
}

/// The native tag block a committing write of `t`'s text fields leaves
/// behind: exactly the nonempty ones of title, artist, album, year and
/// comment. Track, genre and album artist have no native field.
pub open spec fn text_committed(t: TagSet) -> TagSet {
    TagSet {
        title: committed_field(field_bytes(t.title)),
        artist: committed_field(field_bytes(t.artist)),
        album: committed_field(field_bytes(t.album)),
        year: committed_field(field_bytes(t.year)),
        comment: committed_field(field_bytes(t.comment)),
        track: None,
        genre: None,
        album_artist: None,
    }
}

/// Checks a text field for the one byte the native string representation
/// cannot carry and hands back its bytes.
fn clean_text(text: &str) -> (r: Result<Vec<u8>, LameError>)
    ensures
        !text.spec_bytes().contains(0) ==> (r matches Ok(v) && v@ == text.spec_bytes()),
        text.spec_bytes().contains(0) ==> (r matches Err(e) && e matches LameError::InvalidInput(m)
            && m@ == "String contains null byte"@),
{
    let bytes = vstd::slice::slice_to_vec(text.as_bytes());
    let mut i: usize = 0;
    while i < bytes.len()
        invariant
            i <= bytes@.len(),
            bytes@ == text.spec_bytes(),
            forall|j: int| 0 <= j < i ==> bytes@[j] != 0,
        decreases bytes@.len() - i,
    {
        if *bytes.get(i).unwrap() == 0 {
            return Err(LameError::InvalidInput("String contains null byte".to_owned()));
        }
        i = i + 1;
    }
    Ok(bytes)
}

fn clone_opt_bytes(o: &Option<Vec<u8>>) -> (r: Vec<u8>)
    ensures
        r@ == field_bytes(opt_bytes(*o)),
{
    match o {
        Some(v) => vstd::slice::slice_to_vec(v.as_slice()),
        None => Vec::new(),
    }
}

/// The tag stage. It owns the configuration stage while the chain runs:
/// the stage is reachable again only through `apply`.
pub struct Id3Tag {
    stage: EncoderBuilder,
    title: Option<Vec<u8>>,
    artist: Option<Vec<u8>>,
    album: Option<Vec<u8>>,
    year: Option<Vec<u8>>,
    comment: Option<Vec<u8>>,
    track: Option<u32>,
    genre: Option<Vec<u8>>,
    album_artist: Option<Vec<u8>>,
}

impl Id3Tag {
    /// The fields this chain has collected so far.
    pub closed spec fn tags(&self) -> TagSet {
        TagSet {
            title: opt_bytes(self.title),
            artist: opt_bytes(self.artist),
            album: opt_bytes(self.album),
            year: opt_bytes(self.year),
            comment: opt_bytes(self.comment),
            track: self.track,
            genre: opt_bytes(self.genre),
            album_artist: opt_bytes(self.album_artist),
        }
    }

    /// The configuration of the stage this chain holds.
    pub closed spec fn config(&self) -> EncoderConfig {
        self.stage.config()
    }

    /// The text fields currently committed to the native tag block of the
    /// stage this chain holds.
    pub closed spec fn tag_block(&self) -> TagSet {
        self.stage.tag_block()
    }

    /// Begins a tag chain on the given configuration stage, with a clean
    /// tag set. The native tag block itself is reset and rewritten by the
    /// first text setter that takes effect; a chain that sets no text
    /// field leaves an earlier chain's block standing.
    pub fn new(stage: EncoderBuilder) -> (r: Id3Tag)
        ensures
            r.tags() == TagSet::empty(),
            r.config() == stage.config(),
            r.tag_block() == stage.tag_block(),
    {
        Id3Tag {
            stage,
            title: None,
            artist: None,
            album: None,
            year: None,
            comment: None,
            track: None,
            genre: None,
            album_artist: None,
        }
    }

    /// Rewrites the stage's native tag block from the chain's collected
    /// text fields.
    fn write_through(&mut self)
        ensures
            final(self).tags() == old(self).tags(),
            final(self).config() == old(self).config(),
            has_committed_text(old(self).tags()) ==> final(self).tag_block() == text_committed(
                old(self).tags(),
            ),
            !has_committed_text(old(self).tags()) ==> final(self).tag_block()
                == old(self).tag_block(),
    {
        let title = clone_opt_bytes(&self.title);
        let artist = clone_opt_bytes(&self.artist);
        let album = clone_opt_bytes(&self.album);
        let year = clone_opt_bytes(&self.year);
        let comment = clone_opt_bytes(&self.comment);
        self.stage.write_tag_block(&title, &artist, &album, &year, &comment);
    }

    /// Sets the track title and writes the collected fields through to
    /// the native tag block at once. Rejected, with the tag set and the
    /// block untouched, when the text holds an embedded terminator byte.
    pub fn title(&mut self, title: &str) -> (r: Result<(), LameError>)
        ensures
            final(self).config() == old(self).config(),
            !title.spec_bytes().contains(0) ==> ({
                let t = TagSet { title: Some(title.spec_bytes()), ..old(self).tags() };
                &&& r is Ok
                &&& final(self).tags() == t
                &&& has_committed_text(t) ==> final(self).tag_block() == text_committed(t)
                &&& !has_committed_text(t) ==> final(self).tag_block() == old(self).tag_block()
            }),
            title.spec_bytes().contains(0) ==> (r matches Err(e) && e
                matches LameError::InvalidInput(m) && m@ == "String contains null byte"@ && final(self).tags() == old(self).tags() && final(self).tag_block() == old(self).tag_block()),
    {
        let bytes = clean_text(title)?;
        self.title = Some(bytes);
        self.write_through();
        Ok(())
    }

    /// Sets the artist and writes the collected fields through to the
    /// native tag block at once. Rejected, with the tag set and the block
    /// untouched, when the text holds an embedded terminator byte.
    pub fn artist(&mut self, artist: &str) -> (r: Result<(), LameError>)
        ensures
            final(self).config() == old(self).config(),
            !artist.spec_bytes().contains(0) ==> ({
                let t = TagSet { artist: Some(artist.spec_bytes()), ..old(self).tags() };
                &&& r is Ok
                &&& final(self).tags() == t
                &&& has_committed_text(t) ==> final(self).tag_block() == text_committed(t)
                &&& !has_committed_text(t) ==> final(self).tag_block() == old(self).tag_block()
            }),
            artist.spec_bytes().contains(0) ==> (r matches Err(e) && e
                matches LameError::InvalidInput(m) && m@ == "String contains null byte"@ && final(self).tags() == old(self).tags() && final(self).tag_block() == old(self).tag_block()),
    {
        let bytes = clean_text(artist)?;
        self.artist = Some(bytes);
        self.write_through();
        Ok(())
    }

    /// Sets the album name and writes the collected fields through to the
    /// native tag block at once. Rejected, with the tag set and the block
    /// untouched, when the text holds an embedded terminator byte.
    pub fn album(&mut self, album: &str) -> (r: Result<(), LameError>)
        ensures
            final(self).config() == old(self).config(),
            !album.spec_bytes().contains(0) ==> ({
                let t = TagSet { album: Some(album.spec_bytes()), ..old(self).tags() };
                &&& r is Ok
                &&& final(self).tags() == t
                &&& has_committed_text(t) ==> final(self).tag_block() == text_committed(t)
                &&& !has_committed_text(t) ==> final(self).tag_block() == old(self).tag_block()
            }),
            album.spec_bytes().contains(0) ==> (r matches Err(e) && e
                matches LameError::InvalidInput(m) && m@ == "String contains null byte"@ && final(self).tags() == old(self).tags() && final(self).tag_block() == old(self).tag_block()),
    {
        let bytes = clean_text(album)?;
        self.album = Some(bytes);
        self.write_through();
        Ok(())
    }

    /// Sets the release year and writes the collected fields through to
    /// the native tag block at once. Rejected, with the tag set and the
    /// block untouched, when the text holds an embedded terminator byte.
    pub fn year(&mut self, year: &str) -> (r: Result<(), LameError>)
        ensures
            final(self).config() == old(self).config(),
            !year.spec_bytes().contains(0) ==> ({
                let t = TagSet { year: Some(year.spec_bytes()), ..old(self).tags() };
                &&& r is Ok
                &&& final(self).tags() == t
                &&& has_committed_text(t) ==> final(self).tag_block() == text_committed(t)
                &&& !has_committed_text(t) ==> final(self).tag_block() == old(self).tag_block()
            }),
            year.spec_bytes().contains(0) ==> (r matches Err(e) && e
                matches LameError::InvalidInput(m) && m@ == "String contains null byte"@ && final(self).tags() == old(self).tags() && final(self).tag_block() == old(self).tag_block()),
    {
        let bytes = clean_text(year)?;
        self.year = Some(bytes);
        self.write_through();
        Ok(())
    }

    /// Sets the comment and writes the collected fields through to the
    /// native tag block at once. Rejected, with the tag set and the block
    /// untouched, when the text holds an embedded terminator byte.
    pub fn comment(&mut self, comment: &str) -> (r: Result<(), LameError>)
        ensures
            final(self).config() == old(self).config(),
            !comment.spec_bytes().contains(0) ==> ({
                let t = TagSet { comment: Some(comment.spec_bytes()), ..old(self).tags() };
                &&& r is Ok
                &&& final(self).tags() == t
                &&& has_committed_text(t) ==> final(self).tag_block() == text_committed(t)
                &&& !has_committed_text(t) ==> final(self).tag_block() == old(self).tag_block()
            }),
            comment.spec_bytes().contains(0) ==> (r matches Err(e) && e
                matches LameError::InvalidInput(m) && m@ == "String contains null byte"@ && final(self).tags() == old(self).tags() && final(self).tag_block() == old(self).tag_block()),
    {
        let bytes = clean_text(comment)?;
        self.comment = Some(bytes);
        self.write_through();
        Ok(())
    }

    /// Sets the track number. Always succeeds: only a number is recorded.
    /// The codec boundary's tag block has no track field, so the number
    /// stays in the tag set and is never embedded in the output stream.
    pub fn track(&mut self, track: u32)
        ensures
            final(self).config() == old(self).config(),
            final(self).tag_block() == old(self).tag_block(),
            final(self).tags() == (TagSet { track: Some(track), ..old(self).tags() }),
    {
        self.track = Some(track);
    }

    /// Sets the genre name. Rejected, with the tag set untouched, when the
    /// text holds an embedded terminator byte. The codec boundary's tag
    /// block has no genre field, so the text stays in the tag set and is
    /// never embedded in the output stream.
    pub fn genre(&mut self, genre: &str) -> (r: Result<(), LameError>)
        ensures
            final(self).config() == old(self).config(),
            final(self).tag_block() == old(self).tag_block(),
            !genre.spec_bytes().contains(0) ==> r is Ok && final(self).tags() == (TagSet {
                genre: Some(genre.spec_bytes()),
                ..old(self).tags()
            }),
            genre.spec_bytes().contains(0) ==> (r matches Err(e) && e
                matches LameError::InvalidInput(m) && m@ == "String contains null byte"@ && final(self).tags() == old(self).tags()),
    {
        let bytes = clean_text(genre)?;
        self.genre = Some(bytes);
        Ok(())
    }

    /// Sets the album artist. Rejected, with the tag set untouched, when
    /// the text holds an embedded terminator byte. The codec boundary's tag
    /// block has no album-artist field, so the text stays in the tag set
    /// and is never embedded in the output stream.
    pub fn album_artist(&mut self, album_artist: &str) -> (r: Result<(), LameError>)
        ensures
            final(self).config() == old(self).config(),
            final(self).tag_block() == old(self).tag_block(),
            !album_artist.spec_bytes().contains(0) ==> r is Ok && final(self).tags() == (TagSet {
                album_artist: Some(album_artist.spec_bytes()),
                ..old(self).tags()
            }),
            album_artist.spec_bytes().contains(0) ==> (r matches Err(e) && e
                matches LameError::InvalidInput(m) && m@ == "String contains null byte"@ && final(self).tags() == old(self).tags()),
    {
        let bytes = clean_text(album_artist)?;
        self.album_artist = Some(bytes);
        Ok(())
    }

    /// Commits the chain and hands the configuration stage back. Every
    /// text setter already wrote through, so the commit is a confirming
    /// rewrite: afterwards the stage's native tag block holds exactly the
    /// nonempty ones of the collected title, artist, album, year and
    /// comment. A chain whose text fields are all empty leaves the block
    /// as it was.
    pub fn apply(self) -> (r: Result<EncoderBuilder, LameError>)
        ensures
            r matches Ok(b) && b.config() == self.config() && (has_committed_text(self.tags())
                ==> b.tag_block() == text_committed(self.tags())) && (!has_committed_text(
                self.tags(),
            ) ==> b.tag_block() == self.tag_block()),
    {
        let mut s = self;
        s.write_through();
        let Id3Tag { stage, .. } = s;
        Ok(stage)
    }
}

} // verus!
