//! The module as a whole: the header, then sections up to the end of the input.
use crate::bytes::{lemma_views_push, spec_byte, spec_tag, spec_take, tag, views};
use crate::error::ParseError;
use crate::leb::{lemma_integer_advances, spec_u32};
use crate::program::Program;
use crate::sections::{lemma_section_id, section, spec_section};
use crate::types::SectionModel;
use crate::view::{ProgramView, SectionView};
use vstd::prelude::*;

verus! {

/// The four bytes that every module starts with: `\0asm`.
pub open spec fn magic() -> Seq<u8> {
    seq![0x00u8, 0x61u8, 0x73u8, 0x6Du8]
}

/// The four bytes of the version of the format, which is 1.
pub open spec fn version() -> Seq<u8> {
    seq![0x01u8, 0x00u8, 0x00u8, 0x00u8]
}

/// The sections from `pos` up to the end of the input, appended to `acc`; with
/// the error of the first section that cannot be decoded, if there is one,
/// and then the sections in front of it.
///
/// (A section is at least one byte long and lies inside the input. The test
/// on `next` says so where termination is decided; it never fails.)
pub open spec fn spec_sections(s: Seq<u8>, pos: int, acc: Seq<SectionModel>) -> (
    Seq<SectionModel>,
    Option<ParseError>,
)
    decreases s.len() - pos,
{
    if pos >= s.len() {
        (acc, None)
    } else {
        match spec_section(s, pos) {
            Err(e) => (acc, Some(e)),
            Ok((section, next)) => if pos < next <= s.len() {
                spec_sections(s, next, acc.push(section))
            } else {
                (acc, Some(ParseError::UnexpectedEnd))
            },
        }
    }
}

/// What the bytes `s` hold: the sections of the module in their order, or the
/// error that stops decoding together with the sections in front of it.
pub open spec fn spec_module(s: Seq<u8>) -> Result<
    Seq<SectionModel>,
    (Seq<SectionModel>, ParseError),
> {
    if spec_tag(s, 0, magic()) is None {
        Err((Seq::empty(), ParseError::BadMagic))
    } else if spec_tag(s, 4, version()) is None {
        Err((Seq::empty(), ParseError::BadVersion))
    } else {
        match spec_sections(s, 8, Seq::empty()) {
            (sections, None) => Ok(sections),
            (sections, Some(e)) => Err((sections, e)),
        }
    }
}

/// Whether `r` is what decoding `s` into a view gives: the module, or the
/// message of the error.
pub open spec fn is_parse_of(r: Result<ProgramView, &'static str>, s: Seq<u8>) -> bool {
    match r {
        Ok(program) => spec_module(s) == Ok::<
            Seq<SectionModel>,
            (Seq<SectionModel>, ParseError),
        >(program@),
        Err(message) => spec_module(s) matches Err((_, e)) && message@ == e.text(),
    }
}

/// Whether `r` is what decoding `s` into an owned module gives: the module,
/// or the sections in front of the error and the message of the error.
pub open spec fn is_owned_parse_of(
    r: Result<Program, (Program, &'static str)>,
    s: Seq<u8>,
) -> bool {
    match r {
        Ok(program) => spec_module(s) == Ok::<
            Seq<SectionModel>,
            (Seq<SectionModel>, ParseError),
        >(program@),
        Err((partial, message)) => spec_module(s) matches Err((sections, e)) && partial@
            == sections && message@ == e.text(),
    }
}

/// The eight bytes of the header: the magic, then the version.
pub open spec fn header() -> Seq<u8> {
    magic() + version()
}

/// The section ids that the framing alone finds from `pos` up to the end of
/// the input, appended to `acc`: an id byte, a length, and that many bytes
/// stand for one section, whatever the bytes hold.
pub open spec fn spec_frame_ids(s: Seq<u8>, pos: int, acc: Seq<u8>) -> Option<Seq<u8>>
    decreases s.len() - pos,
{
    if pos < 0 || pos >= s.len() {
        Some(acc)
    } else {
        match spec_u32(s, pos + 1) {
            Err(_) => None,
            Ok((len, start)) => if pos < start && start + len <= s.len() {
                spec_frame_ids(s, start + len, acc.push(s[pos]))
            } else {
                None
            },
        }
    }
}

/// The ids of the sections of `sections`, in order.
pub open spec fn section_ids(sections: Seq<SectionModel>) -> Seq<u8> {
    Seq::new(sections.len(), |k: int| sections[k].id())
}

/// An input that does not start with the eight bytes of the header is
/// refused with a header error, and with no section. One that does holds
/// what its sections from the ninth byte on hold.
pub proof fn lemma_header(s: Seq<u8>)
    ensures
        !(s.len() >= 8 && s.subrange(0, 8) == header()) ==> (spec_module(s) matches Err(
            (sections, e),
        ) && sections.len() == 0 && (e == ParseError::BadMagic || e == ParseError::BadVersion)),
        s.len() >= 8 && s.subrange(0, 8) == header() ==> spec_module(s) == match spec_sections(
            s,
            8,
            Seq::empty(),
        ) {
            (sections, None) => Ok::<Seq<SectionModel>, (Seq<SectionModel>, ParseError)>(
                sections,
            ),
            (sections, Some(e)) => Err::<Seq<SectionModel>, (Seq<SectionModel>, ParseError)>(
                (sections, e),
            ),
        },
{
    if s.len() >= 8 {
        if spec_tag(s, 0, magic()) is Some && spec_tag(s, 4, version()) is Some {
            assert(s.subrange(0, 4) == magic());
            assert(s.subrange(4, 8) == version());
            assert(s.subrange(0, 8) =~= s.subrange(0, 4) + s.subrange(4, 8));
        }
        if s.subrange(0, 8) == header() {
            assert(s.subrange(0, 4) =~= s.subrange(0, 8).subrange(0, 4));
            assert(s.subrange(4, 8) =~= s.subrange(0, 8).subrange(4, 8));
            assert(header().subrange(0, 4) =~= magic());
            assert(header().subrange(4, 8) =~= version());
        }
    }
}

/// A section that is decoded at `pos` has the id that stands at `pos`, and
/// ends where its length says.
pub proof fn lemma_section_frame(s: Seq<u8>, pos: int)
    ensures
        spec_section(s, pos) matches Ok((section, next)) ==> 0 <= pos < s.len() && section.id()
            == s[pos] && (spec_u32(s, pos + 1) matches Ok((len, start)) && pos < start && next
            == start + len && next <= s.len()),
{
    reveal(spec_section);
    lemma_integer_advances(s, pos + 1);
    if let Ok((id, at)) = spec_byte(s, pos) {
        if let Ok((len, start)) = spec_u32(s, at) {
            if let Ok((body, _)) = spec_take(s, start, len as nat) {
                lemma_section_id(id, body);
            }
        }
    }
}

/// The sections that are decoded from `pos` on are those that the framing finds.
proof fn lemma_sections_follow_frames(s: Seq<u8>, pos: int, acc: Seq<SectionModel>)
    requires
        0 <= pos,
    ensures
        spec_sections(s, pos, acc) matches (sections, None) ==> spec_frame_ids(
            s,
            pos,
            section_ids(acc),
        ) == Some(section_ids(sections)),
    decreases s.len() - pos,
{
    if pos < s.len() {
        lemma_section_frame(s, pos);
        if let Ok((section, next)) = spec_section(s, pos) {
            assert(section_ids(acc.push(section)) =~= section_ids(acc).push(s[pos]));
            lemma_sections_follow_frames(s, next, acc.push(section));
        }
    }
}

/// The sections of a module that is decoded are as many as the framing of
/// the input finds behind the header, and have the same ids in the same order.
pub proof fn lemma_sections_preserved(s: Seq<u8>)
    ensures
        spec_module(s) matches Ok(sections) ==> spec_frame_ids(s, 8, Seq::empty()) == Some(
            section_ids(sections),
        ),
{
    assert(section_ids(Seq::<SectionModel>::empty()) =~= Seq::<u8>::empty());
    lemma_sections_follow_frames(s, 8, Seq::empty());
}

/// The copy of the view that decoding gives is, section by section, the
/// module that decoding into an owned module gives.
pub proof fn lemma_to_owned_round_trip(s: Seq<u8>, view: ProgramView, copy: Program, direct: Program)
    requires
        is_parse_of(Ok(view), s),
        copy@ == view@,
        is_owned_parse_of(Ok(direct), s),
    ensures
        copy@ == direct@,
{
}

/// Decoding the same bytes twice gives the same module, or the same message.
pub proof fn lemma_parse_deterministic(
    s: Seq<u8>,
    a: Result<ProgramView, &'static str>,
    b: Result<ProgramView, &'static str>,
)
    requires
        is_parse_of(a, s),
        is_parse_of(b, s),
    ensures
        match (a, b) {
            (Ok(x), Ok(y)) => x@ == y@,
            (Err(x), Err(y)) => x@ == y@,
            _ => false,
        },
{
}

/// One step of [`spec_sections`], by what the section at `pos` is.
proof fn lemma_sections_step(
    s: Seq<u8>,
    pos: int,
    acc: Seq<SectionModel>,
    found: Result<(SectionModel, int), ParseError>,
)
    requires
        0 <= pos < s.len(),
        found == spec_section(s, pos),
        found matches Ok((_, next)) ==> pos < next <= s.len(),
    ensures
        spec_sections(s, pos, acc) == match found {
            Ok((section, next)) => spec_sections(s, next, acc.push(section)),
            Err(e) => (acc, Some(e)),
        },
{
}

/// Decodes a module. Where decoding fails, the sections in front of the one
/// that failed come back with the error.
pub fn parse_module<'p>(input: &'p [u8]) -> (r: Result<
    ProgramView<'p>,
    (ProgramView<'p>, ParseError),
>)
    ensures
        match r {
            Ok(program) => spec_module(input@) == Ok::<
                Seq<SectionModel>,
                (Seq<SectionModel>, ParseError),
            >(program@),
            Err((partial, e)) => spec_module(input@) == Err::<
                Seq<SectionModel>,
                (Seq<SectionModel>, ParseError),
            >((partial@, e)),
        },
{
    let mut sections: Vec<SectionView<'p>> = Vec::new();
    assert(views(sections@) =~= Seq::empty());
    let magic_bytes: [u8; 4] = [0x00, 0x61, 0x73, 0x6D];
    let version_bytes: [u8; 4] = [0x01, 0x00, 0x00, 0x00];
    assert(magic_bytes@ =~= magic());
    assert(version_bytes@ =~= version());
    if tag(input, 0, magic_bytes.as_slice()).is_none() {
        return Err((ProgramView { sections }, ParseError::BadMagic));
    }
    if tag(input, 4, version_bytes.as_slice()).is_none() {
        return Err((ProgramView { sections }, ParseError::BadVersion));
    }
    let mut at: usize = 8;
    while at < input.len()
        invariant
            8 <= at <= input@.len(),
            spec_tag(input@, 0, magic()) is Some,
            spec_tag(input@, 4, version()) is Some,
            spec_sections(input@, 8, Seq::empty()) == spec_sections(
                input@,
                at as int,
                views(sections@),
            ),
        decreases input@.len() - at,
    {
        let found = section(input, at);
        proof {
            lemma_sections_step(input@, at as int, views(sections@), spec_section(input@, at as int));
        }
        match found {
            Ok((s, next)) => {
                proof {
                    lemma_views_push(sections@, s);
                }
                sections.push(s);
                at = next;
            },
            Err(e) => {
                return Err((ProgramView { sections }, e));
            },
        }
    }
    Ok(ProgramView { sections })
}

/// Decodes a module into a view that borrows its names and payloads from
/// `input`. An error comes back as its message.
pub fn parse<'p>(input: &'p [u8]) -> (r: Result<ProgramView<'p>, &'static str>)
    ensures
        is_parse_of(r, input@),
{
    match parse_module(input) {
        Ok(program) => Ok(program),
        Err((_, e)) => Err(e.message()),
    }
}

impl Program {
    /// Decodes a module into one that owns its data. Where decoding fails,
    /// the sections in front of the one that failed come back with the
    /// message of the error.
    pub fn parse(input: &[u8]) -> (r: Result<Program, (Program, &'static str)>)
        ensures
            is_owned_parse_of(r, input@),
    {
        match parse_module(input) {
            Ok(program) => Ok(program.to_owned()),
            Err((partial, e)) => Err((partial.to_owned(), e.message())),
        }
    }
}

} // verus!
