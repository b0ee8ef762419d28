//! The image encodings that are served, and how a file name selects one.

use crate::error::ErrorKind;
use vstd::prelude::*;

verus! {

/// An output encoding of the render service.
#[derive(Clone, Copy, Debug, PartialEq, Eq, Structural)]
pub enum Format {
    /// Portable Network Graphics.
    Png,
    /// Truevision TGA.
    Tga,
}

/// The text after the last `.` of `path`; `None` where `path` has no `.`.
pub open spec fn extension_of(path: Seq<char>) -> Option<Seq<char>>
    decreases path.len(),
{
    if path.len() == 0 {
        None
    } else if path.last() == '.' {
        Some(Seq::empty())
    } else {
        match extension_of(path.drop_last()) {
            Some(ext) => Some(ext.push(path.last())),
            None => None,
        }
    }
}

/// The format that a file name asks for, if it asks for a served one.
pub open spec fn format_of_path(path: Seq<char>) -> Option<Format> {
    match extension_of(path) {
        Some(ext) => Format::of_extension(ext),
        None => None,
    }
}

impl Format {
    /// The extension that names this format, without the dot.
    pub open spec fn spec_extension(self) -> Seq<char> {
        match self {
            Format::Png => seq!['p', 'n', 'g'],
            Format::Tga => seq!['t', 'g', 'a'],
        }
    }

    /// The format that an extension names. Matching is exact: no other
    /// spelling or letter case is accepted.
    pub open spec fn of_extension(ext: Seq<char>) -> Option<Format> {
        if ext == Format::Png.spec_extension() {
            Some(Format::Png)
        } else if ext == Format::Tga.spec_extension() {
            Some(Format::Tga)
        } else {
            None
        }
    }

    /// The extension that names this format, without the dot.
    pub fn extension(&self) -> (r: &'static str)
        ensures
            r@ == self.spec_extension(),
    {
        proof {
            reveal_strlit("png");
            reveal_strlit("tga");
        }
        match self {
            Format::Png => {
                assert("png"@ =~= Format::Png.spec_extension());
                "png"
            },
            Format::Tga => {
                assert("tga"@ =~= Format::Tga.spec_extension());
                "tga"
            },
        }
    }

    /// Selects the format from the trailing extension of a file name.
    /// A name without extension, or with any extension but `png` and `tga`,
    /// is refused.
    pub fn from_path(path: &str) -> (r: Result<Format, ErrorKind>)
        ensures
            r == match format_of_path(path@) {
                Some(f) => Ok::<Format, ErrorKind>(f),
                None => Err(ErrorKind::UnsupportedFormat),
            },
    {
        // The extension read so far: whether a dot was seen, how many
        // characters follow the last one (4 stands for "more than 3"), and
        // the first three of them.
        let mut dotted = false;
        let mut n: u8 = 0;
        let mut a = ' ';
        let mut b = ' ';
        let mut c = ' ';
        let chars = path.chars();
        for ch in it: chars
            invariant
                it.seq() == path@,
                tail_matches(extension_of(path@.take(it.index() as int)), dotted, n, a, b, c),
        {
            proof {
                let i = it.index() as int;
                assert(path@.take(i + 1).drop_last() =~= path@.take(i));
                assert(path@.take(i + 1).last() == ch);
            }
            if ch == '.' {
                dotted = true;
                n = 0;
            } else if dotted {
                if n == 0 {
                    a = ch;
                    n = 1;
                } else if n == 1 {
                    b = ch;
                    n = 2;
                } else if n == 2 {
                    c = ch;
                    n = 3;
                } else {
                    n = 4;
                }
            }
        }
        assert(path@.take(path@.len() as int) =~= path@);
        if dotted && n == 3 && a == 'p' && b == 'n' && c == 'g' {
            assert(extension_of(path@)->0 =~= Format::Png.spec_extension());
            Ok(Format::Png)
        } else if dotted && n == 3 && a == 't' && b == 'g' && c == 'a' {
            assert(extension_of(path@)->0 =~= Format::Tga.spec_extension());
            Ok(Format::Tga)
        } else {
            Err(ErrorKind::UnsupportedFormat)
        }
    }
}

/// Whether `path` ends in `ending`.
pub open spec fn ends_in(path: Seq<char>, ending: Seq<char>) -> bool {
    path.len() >= ending.len() && path.subrange(path.len() - ending.len(), path.len() as int)
        == ending
}

/// A file name asks for a format exactly if it ends in a dot and the
/// format's extension.
pub proof fn law_format_is_read_off_the_ending(path: Seq<char>)
    ensures
        format_of_path(path) == if ends_in(path, seq!['.', 'p', 'n', 'g']) {
            Some(Format::Png)
        } else if ends_in(path, seq!['.', 't', 'g', 'a']) {
            Some(Format::Tga)
        } else {
            None
        },
{
    reveal_with_fuel(extension_of, 5);
    let n = path.len() as int;
    let png = seq!['.', 'p', 'n', 'g'];
    let tga = seq!['.', 't', 'g', 'a'];
    if n >= 4 {
        let tail = path.subrange(n - 4, n);
        assert(tail[0] == path[n - 4] && tail[1] == path[n - 3] && tail[2] == path[n - 2]
            && tail[3] == path[n - 1]);
        assert(tail == png <==> tail =~= png);
        assert(tail == tga <==> tail =~= tga);
        let a = path.drop_last();
        let b = a.drop_last();
        let c = b.drop_last();
        assert(a.last() == path[n - 2] && b.last() == path[n - 3] && c.last() == path[n - 4]);
    }
    match extension_of(path) {
        Some(ext) => {
            if ext =~= Format::Png.spec_extension() || ext =~= Format::Tga.spec_extension() {
                assert(n >= 4);
            }
        },
        None => {},
    }
}

/// The scanner's variables describe the extension `ext` read so far.
spec fn tail_matches(ext: Option<Seq<char>>, dotted: bool, n: u8, a: char, b: char, c: char) -> bool {
    match ext {
        None => !dotted,
        Some(e) => {
            &&& dotted
            &&& n <= 4
            &&& e.len() <= 3 ==> n == e.len()
            &&& e.len() > 3 ==> n == 4
            &&& 1 <= e.len() <= 3 ==> a == e[0]
            &&& 2 <= e.len() <= 3 ==> b == e[1]
            &&& e.len() == 3 ==> c == e[2]
        },
    }
}

} // verus!
