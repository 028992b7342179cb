//! The durable reading-position record and its wire form.
//!
//! A progression is persisted as a discriminant plus variant-specific
//! integer fields; the decoder restores exactly what the encoder wrote.

use vstd::prelude::*;

verus! {

/// The persisted reading position: the document was finished, or a text
/// position (section, local page and byte offset, the latter `-1` when
/// unknown), or an audio position.
#[derive(Debug, Clone, Copy, PartialEq, Eq, Structural)]
pub enum Progression {
    Complete,
    Ebook { char_pos: i64, chapter: i64, page: i64 },
    AudioBook { chapter: i64, seek_pos: i64 },
}

/// The wire form of a progression: a discriminant and one optional integer
/// field per variant-specific value.
#[derive(Debug, Clone, Copy, PartialEq, Eq, Structural)]
pub struct ProgressionRecord {
    pub type_of: u8,
    pub chapter: Option<i64>,
    pub page: Option<i64>,
    pub char_pos: Option<i64>,
    pub seek_pos: Option<i64>,
}

/// How each progression is laid out on the wire.
pub open spec fn spec_encode(p: Progression) -> ProgressionRecord {
    match p {
        Progression::Complete => ProgressionRecord {
            type_of: 0u8,
            chapter: Option::None,
            page: Option::None,
            char_pos: Option::None,
            seek_pos: Option::None,
        },
        Progression::Ebook { char_pos, chapter, page } => ProgressionRecord {
            type_of: 1u8,
            chapter: Option::Some(chapter),
            page: Option::Some(page),
            char_pos: Option::Some(char_pos),
            seek_pos: Option::None,
        },
        Progression::AudioBook { chapter, seek_pos } => ProgressionRecord {
            type_of: 2u8,
            chapter: Option::Some(chapter),
            page: Option::None,
            char_pos: Option::None,
            seek_pos: Option::Some(seek_pos),
        },
    }
}

/// Which progression, if any, a record decodes to: a record whose
/// discriminant is unknown, or whose fields do not carry what its variant
/// needs, decodes to nothing.
pub open spec fn spec_decode(r: ProgressionRecord) -> Option<Progression> {
    if r.type_of == 0 {
        Option::Some(Progression::Complete)
    } else if r.type_of == 1 {
        match (r.char_pos, r.chapter, r.page) {
            (Option::Some(char_pos), Option::Some(chapter), Option::Some(page)) => Option::Some(
                Progression::Ebook { char_pos, chapter, page },
            ),
            _ => Option::None,
        }
    } else if r.type_of == 2 {
        match (r.chapter, r.seek_pos) {
            (Option::Some(chapter), Option::Some(seek_pos)) => Option::Some(
                Progression::AudioBook { chapter, seek_pos },
            ),
            _ => Option::None,
        }
    } else {
        Option::None
    }
}

impl Progression {
    /// Writes this progression in its wire form.
    pub fn encode(&self) -> (r: ProgressionRecord)
        ensures
            r == spec_encode(*self),
    {
        match self {
            Progression::Complete => ProgressionRecord {
                type_of: 0,
                chapter: None,
                page: None,
                char_pos: None,
                seek_pos: None,
            },
            Progression::Ebook { char_pos, chapter, page } => ProgressionRecord {
                type_of: 1,
                chapter: Some(*chapter),
                page: Some(*page),
                char_pos: Some(*char_pos),
                seek_pos: None,
            },
            Progression::AudioBook { chapter, seek_pos } => ProgressionRecord {
                type_of: 2,
                chapter: Some(*chapter),
                page: None,
                char_pos: None,
                seek_pos: Some(*seek_pos),
            },
        }
    }
}

impl ProgressionRecord {
    /// Reads a progression back from its wire form; a malformed record
    /// yields nothing rather than a made-up position.
    pub fn decode(&self) -> (r: Option<Progression>)
        ensures
            r == spec_decode(*self),
    {
        match self.type_of {
            0 => Some(Progression::Complete),
            1 => match (self.char_pos, self.chapter, self.page) {
                (Some(char_pos), Some(chapter), Some(page)) => Some(
                    Progression::Ebook { char_pos, chapter, page },
                ),
                _ => None,
            },
            2 => match (self.chapter, self.seek_pos) {
                (Some(chapter), Some(seek_pos)) => Some(
                    Progression::AudioBook { chapter, seek_pos },
                ),
                _ => None,
            },
            _ => None,
        }
    }
}

/// Law: decoding a freshly encoded progression restores it exactly.
pub proof fn lemma_record_round_trip(p: Progression)
    ensures
        spec_decode(spec_encode(p)) == Option::Some(p),
{
}

} // verus!
