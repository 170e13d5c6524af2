use vstd::prelude::*;

verus! {

/// The image container formats the library knows, plus a sentinel for
/// anything it does not recognise.
#[derive(Debug, Clone, Copy, PartialEq, Eq, Structural, Hash)]
pub enum ImageFormat {
    Png,
    Jpeg,
    Gif,
    Bmp,
    Ico,
    Tiff,
    Tga,
    Dds,
    Hdr,
    Farbfeld,
    Pnm,
    OpenExr,
    Qoi,
    Unknown,
}

/// The canonical lowercase name of a format.
pub open spec fn name_of(f: ImageFormat) -> Seq<char> {
    match f {
        ImageFormat::Png => seq!['p', 'n', 'g'],
        ImageFormat::Jpeg => seq!['j', 'p', 'e', 'g'],
        ImageFormat::Gif => seq!['g', 'i', 'f'],
        ImageFormat::Bmp => seq!['b', 'm', 'p'],
        ImageFormat::Ico => seq!['i', 'c', 'o'],
        ImageFormat::Tiff => seq!['t', 'i', 'f', 'f'],
        ImageFormat::Tga => seq!['t', 'g', 'a'],
        ImageFormat::Dds => seq!['d', 'd', 's'],
        ImageFormat::Hdr => seq!['h', 'd', 'r'],
        ImageFormat::Farbfeld => seq!['f', 'a', 'r', 'b', 'f', 'e', 'l', 'd'],
        ImageFormat::Pnm => seq!['p', 'n', 'm'],
        ImageFormat::OpenExr => seq!['e', 'x', 'r'],
        ImageFormat::Qoi => seq!['q', 'o', 'i'],
        ImageFormat::Unknown => seq!['u', 'n', 'k', 'n', 'o', 'w', 'n'],
    }
}

/// The stable integer code of a format, for callers that persist formats.
pub open spec fn code_of(f: ImageFormat) -> u8 {
    match f {
        ImageFormat::Png => 0,
        ImageFormat::Jpeg => 1,
        ImageFormat::Gif => 2,
        ImageFormat::Bmp => 4,
        ImageFormat::Ico => 5,
        ImageFormat::Tiff => 6,
        ImageFormat::Tga => 7,
        ImageFormat::Dds => 8,
        ImageFormat::Hdr => 9,
        ImageFormat::Farbfeld => 10,
        ImageFormat::Pnm => 11,
        ImageFormat::OpenExr => 12,
        ImageFormat::Qoi => 13,
        ImageFormat::Unknown => 14,
    }
}

/// The alternative spellings accepted besides the canonical names, with the
/// format each one stands for: `jpg` is the only one.
pub open spec fn alias_of(s: Seq<char>) -> Option<ImageFormat> {
    if s == seq!['j', 'p', 'g'] {
        Some(ImageFormat::Jpeg)
    } else {
        None
    }
}

/// The format a name selects: an exact, case-sensitive match against the
/// canonical names of the known formats and the aliases; `Unknown` otherwise.
pub open spec fn lookup(s: Seq<char>) -> ImageFormat {
    if s == name_of(ImageFormat::Png) {
        ImageFormat::Png
    } else if s == name_of(ImageFormat::Jpeg) {
        ImageFormat::Jpeg
    } else if s == name_of(ImageFormat::Gif) {
        ImageFormat::Gif
    } else if s == name_of(ImageFormat::Bmp) {
        ImageFormat::Bmp
    } else if s == name_of(ImageFormat::Ico) {
        ImageFormat::Ico
    } else if s == name_of(ImageFormat::Tiff) {
        ImageFormat::Tiff
    } else if s == name_of(ImageFormat::Tga) {
        ImageFormat::Tga
    } else if s == name_of(ImageFormat::Dds) {
        ImageFormat::Dds
    } else if s == name_of(ImageFormat::Hdr) {
        ImageFormat::Hdr
    } else if s == name_of(ImageFormat::Farbfeld) {
        ImageFormat::Farbfeld
    } else if s == name_of(ImageFormat::Pnm) {
        ImageFormat::Pnm
    } else if s == name_of(ImageFormat::OpenExr) {
        ImageFormat::OpenExr
    } else if s == name_of(ImageFormat::Qoi) {
        ImageFormat::Qoi
    } else if alias_of(s) is Some {
        alias_of(s)->Some_0
    } else {
        ImageFormat::Unknown
    }
}

impl ImageFormat {
    /// The canonical lowercase name of the format (`"unknown"` for the sentinel).
    pub fn to_string(&self) -> (r: String)
        ensures
            r@ == name_of(*self),
    {
        let s = match self {
            ImageFormat::Png => "png",
            ImageFormat::Jpeg => "jpeg",
            ImageFormat::Gif => "gif",
            ImageFormat::Bmp => "bmp",
            ImageFormat::Ico => "ico",
            ImageFormat::Tiff => "tiff",
            ImageFormat::Tga => "tga",
            ImageFormat::Dds => "dds",
            ImageFormat::Hdr => "hdr",
            ImageFormat::Farbfeld => "farbfeld",
            ImageFormat::Pnm => "pnm",
            ImageFormat::OpenExr => "exr",
            ImageFormat::Qoi => "qoi",
            ImageFormat::Unknown => "unknown",
        };
        proof {
            reveal_strlit("png");
            reveal_strlit("jpeg");
            reveal_strlit("gif");
            reveal_strlit("bmp");
            reveal_strlit("ico");
            reveal_strlit("tiff");
            reveal_strlit("tga");
            reveal_strlit("dds");
            reveal_strlit("hdr");
            reveal_strlit("farbfeld");
            reveal_strlit("pnm");
            reveal_strlit("exr");
            reveal_strlit("qoi");
            reveal_strlit("unknown");
        }
        s.to_owned()
    }

    /// The stable integer code of the format.
    pub fn code(&self) -> (r: u8)
        ensures
            r == code_of(*self),
    {
        match self {
            ImageFormat::Png => 0,
            ImageFormat::Jpeg => 1,
            ImageFormat::Gif => 2,
            ImageFormat::Bmp => 4,
            ImageFormat::Ico => 5,
            ImageFormat::Tiff => 6,
            ImageFormat::Tga => 7,
            ImageFormat::Dds => 8,
            ImageFormat::Hdr => 9,
            ImageFormat::Farbfeld => 10,
            ImageFormat::Pnm => 11,
            ImageFormat::OpenExr => 12,
            ImageFormat::Qoi => 13,
            ImageFormat::Unknown => 14,
        }
    }
}

/// Whether `s` spells exactly the literal `lit`.
fn spells(s: &String, lit: &str) -> (r: bool)
    ensures
        r == (s@ == lit@),
{
    *s == lit.to_owned()
}

impl From<String> for ImageFormat {
    /// Looks a format up by name; unrecognised names give `Unknown`.
    fn from(fmt: String) -> (r: ImageFormat)
        ensures
            r == lookup(fmt@),
    {
        proof {
            reveal_strlit("png");
            assert("png"@ =~= name_of(ImageFormat::Png));
            reveal_strlit("jpeg");
            assert("jpeg"@ =~= name_of(ImageFormat::Jpeg));
            reveal_strlit("gif");
            assert("gif"@ =~= name_of(ImageFormat::Gif));
            reveal_strlit("bmp");
            assert("bmp"@ =~= name_of(ImageFormat::Bmp));
            reveal_strlit("ico");
            assert("ico"@ =~= name_of(ImageFormat::Ico));
            reveal_strlit("tiff");
            assert("tiff"@ =~= name_of(ImageFormat::Tiff));
            reveal_strlit("tga");
            assert("tga"@ =~= name_of(ImageFormat::Tga));
            reveal_strlit("dds");
            assert("dds"@ =~= name_of(ImageFormat::Dds));
            reveal_strlit("hdr");
            assert("hdr"@ =~= name_of(ImageFormat::Hdr));
            reveal_strlit("farbfeld");
            assert("farbfeld"@ =~= name_of(ImageFormat::Farbfeld));
            reveal_strlit("pnm");
            assert("pnm"@ =~= name_of(ImageFormat::Pnm));
            reveal_strlit("exr");
            assert("exr"@ =~= name_of(ImageFormat::OpenExr));
            reveal_strlit("qoi");
            assert("qoi"@ =~= name_of(ImageFormat::Qoi));
            reveal_strlit("jpg");
            assert("jpg"@ =~= seq!['j', 'p', 'g']);
        }
        if spells(&fmt, "png") {
            ImageFormat::Png
        } else if spells(&fmt, "jpeg") {
            ImageFormat::Jpeg
        } else if spells(&fmt, "gif") {
            ImageFormat::Gif
        } else if spells(&fmt, "bmp") {
            ImageFormat::Bmp
        } else if spells(&fmt, "ico") {
            ImageFormat::Ico
        } else if spells(&fmt, "tiff") {
            ImageFormat::Tiff
        } else if spells(&fmt, "tga") {
            ImageFormat::Tga
        } else if spells(&fmt, "dds") {
            ImageFormat::Dds
        } else if spells(&fmt, "hdr") {
            ImageFormat::Hdr
        } else if spells(&fmt, "farbfeld") {
            ImageFormat::Farbfeld
        } else if spells(&fmt, "pnm") {
            ImageFormat::Pnm
        } else if spells(&fmt, "exr") {
            ImageFormat::OpenExr
        } else if spells(&fmt, "qoi") {
            ImageFormat::Qoi
        } else if spells(&fmt, "jpg") {
            ImageFormat::Jpeg
        } else {
            ImageFormat::Unknown
        }
    }
}

impl vstd::std_specs::convert::FromSpecImpl<String> for ImageFormat {
    open spec fn obeys_from_spec() -> bool {
        true
    }

    open spec fn from_spec(fmt: String) -> ImageFormat {
        lookup(fmt@)
    }
}

/// Whether a name is one that the registry recognises: the canonical name of
/// a known format, or an alias.
pub open spec fn is_known_name(s: Seq<char>) -> bool {
    (exists|f: ImageFormat| f != ImageFormat::Unknown && name_of(f) == s) || alias_of(s) is Some
}

/// Looking up the canonical name of any known format gives that format back.
pub proof fn lemma_name_round_trip(f: ImageFormat)
    requires
        f != ImageFormat::Unknown,
    ensures
        lookup(name_of(f)) == f,
{
}

/// An alias selects the same format as that format's canonical name.
pub proof fn lemma_alias_agrees(s: Seq<char>)
    requires
        alias_of(s) is Some,
    ensures
        lookup(s) == lookup(name_of(alias_of(s)->Some_0)),
{
    lemma_name_round_trip(alias_of(s)->Some_0);
}

/// Every name outside the canonical names and the aliases selects `Unknown`.
pub proof fn lemma_unrecognised_is_unknown(s: Seq<char>)
    requires
        !is_known_name(s),
    ensures
        lookup(s) == ImageFormat::Unknown,
{
    if lookup(s) != ImageFormat::Unknown && alias_of(s) is None {
        assert(name_of(lookup(s)) == s);
    }
}

} // verus!
