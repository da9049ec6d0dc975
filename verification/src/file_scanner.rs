//! Recognition of media files by their extension, compared without regard
//! to ASCII case. Walking a directory tree is I/O and happens outside the
//! library; what comes back is filtered with `is_media_file`.

use vstd::prelude::*;
use crate::text::push_char;

verus! {

/// The recognized video extensions, lower case.
pub open spec fn video_exts_spec() -> Seq<Seq<char>> {
    seq![
        "mp4"@,
        "mkv"@,
        "avi"@,
        "mov"@,
        "wmv"@,
        "flv"@,
        "webm"@,
        "m4v"@,
        "mpeg"@,
        "mpg"@,
        "3gp"@,
        "ts"@,
    ]
}

/// The recognized image extensions, lower case.
pub open spec fn image_exts_spec() -> Seq<Seq<char>> {
    seq!["jpg"@, "jpeg"@, "png"@, "gif"@, "bmp"@, "webp"@, "tiff"@, "tif"@]
}

/// An upper-case ASCII letter folded to lower case; anything else is kept.
pub open spec fn lower_char(c: char) -> char {
    if 'A' <= c && c <= 'Z' {
        ((c as u8) + 32) as char
    } else {
        c
    }
}

/// A string with each character folded by `lower_char`.
pub open spec fn ascii_lower(s: Seq<char>) -> Seq<char> {
    s.map_values(|c: char| lower_char(c))
}

/// The extension found scanning backwards from position `i`: the text
/// after the last `.` of the final path component. A name that starts
/// with the dot (a hidden file) or has none yields nothing.
pub open spec fn ext_from(path: Seq<char>, i: int) -> Option<Seq<char>>
    decreases i,
{
    if i <= 0 {
        None
    } else if path[i] == '/' {
        None
    } else if path[i] == '.' {
        if path[i - 1] == '/' {
            None
        } else {
            Some(path.subrange(i + 1, path.len() as int))
        }
    } else {
        ext_from(path, i - 1)
    }
}

/// The extension of a path, if it has one.
pub open spec fn ext_of(path: Seq<char>) -> Option<Seq<char>> {
    ext_from(path, path.len() - 1)
}

/// Whether the path carries a recognized video or image extension.
pub open spec fn is_media_spec(path: Seq<char>) -> bool {
    match ext_of(path) {
        Some(e) => video_exts_spec().contains(ascii_lower(e)) || image_exts_spec().contains(
            ascii_lower(e),
        ),
        None => false,
    }
}

/// Whether the path carries a recognized image extension.
pub open spec fn is_image_spec(path: Seq<char>) -> bool {
    match ext_of(path) {
        Some(e) => image_exts_spec().contains(ascii_lower(e)),
        None => false,
    }
}

pub struct FileScanner {
    pub video_exts: Vec<String>,
    pub image_exts: Vec<String>,
}

/// Folds a string to ASCII lower case.
fn ascii_lower_str(s: &str) -> (r: String)
    ensures
        r@ == ascii_lower(s@),
{
    let n = s.unicode_len();
    let mut r = String::new();
    let mut i: usize = 0;
    while i < n
        invariant
            n == s@.len(),
            i <= n,
            r@ == ascii_lower(s@.subrange(0, i as int)),
        decreases n - i,
    {
        let c = s.get_char(i);
        let lc: char = if 'A' <= c && c <= 'Z' {
            ((c as u8) + 32) as char
        } else {
            c
        };
        push_char(&mut r, lc);
        proof {
            assert(lc == lower_char(s@[i as int]));
            assert(ascii_lower(s@.subrange(0, i + 1)) =~= ascii_lower(s@.subrange(0, i as int)).push(
                lower_char(s@[i as int]),
            ));
        }
        i = i + 1;
    }
    proof {
        assert(s@.subrange(0, n as int) =~= s@);
    }
    r
}

/// The extension of a path string, if it has one.
fn extension_of(path: &str) -> (r: Option<String>)
    ensures
        r is Some <==> ext_of(path@) is Some,
        r is Some ==> Some(r->0@) == ext_of(path@),
{
    let n = path.unicode_len();
    if n == 0 {
        return None;
    }
    let mut i: usize = n - 1;
    loop
        invariant
            n == path@.len(),
            0 < n,
            i < n,
            ext_from(path@, (n - 1) as int) == ext_from(path@, i as int),
        decreases i,
    {
        let c = path.get_char(i);
        if c == '/' {
            return None;
        }
        if c == '.' {
            if i == 0 {
                return None;
            }
            let prev = path.get_char(i - 1);
            if prev == '/' {
                return None;
            }
            let e = path.substring_char(i + 1, n);
            return Some(e.to_owned());
        }
        if i == 0 {
            return None;
        }
        i = i - 1;
    }
}

impl Default for FileScanner {
    fn default() -> (s: Self)
        ensures
            s.wf(),
    {
        FileScanner::new()
    }
}

impl FileScanner {
    /// The stored lists hold exactly the recognized extensions.
    pub open spec fn wf(&self) -> bool {
        &&& self.video_exts@.map_values(|s: String| s@) == video_exts_spec()
        &&& self.image_exts@.map_values(|s: String| s@) == image_exts_spec()
    }

    pub fn new() -> (s: Self)
        ensures
            s.wf(),
    {
        let mut video_exts: Vec<String> = Vec::new();
        video_exts.push(String::from_str("mp4"));
        video_exts.push(String::from_str("mkv"));
        video_exts.push(String::from_str("avi"));
        video_exts.push(String::from_str("mov"));
        video_exts.push(String::from_str("wmv"));
        video_exts.push(String::from_str("flv"));
        video_exts.push(String::from_str("webm"));
        video_exts.push(String::from_str("m4v"));
        video_exts.push(String::from_str("mpeg"));
        video_exts.push(String::from_str("mpg"));
        video_exts.push(String::from_str("3gp"));
        video_exts.push(String::from_str("ts"));
        let mut image_exts: Vec<String> = Vec::new();
        image_exts.push(String::from_str("jpg"));
        image_exts.push(String::from_str("jpeg"));
        image_exts.push(String::from_str("png"));
        image_exts.push(String::from_str("gif"));
        image_exts.push(String::from_str("bmp"));
        image_exts.push(String::from_str("webp"));
        image_exts.push(String::from_str("tiff"));
        image_exts.push(String::from_str("tif"));
        let s = FileScanner { video_exts, image_exts };
        proof {
            assert(s.video_exts@.map_values(|x: String| x@) =~= video_exts_spec());
            assert(s.image_exts@.map_values(|x: String| x@) =~= image_exts_spec());
        }
        s
    }

    /// Whether `ext` (already lower case) is a recognized video extension.
    pub fn is_video_ext(&self, ext: &str) -> (r: bool)
        requires
            self.wf(),
        ensures
            r == video_exts_spec().contains(ext@),
    {
        let needle: String = ext.to_owned();
        let n = self.video_exts.len();
        let mut i: usize = 0;
        while i < n
            invariant
                self.wf(),
                n == self.video_exts@.len(),
                i <= n,
                needle@ == ext@,
                forall|j: int| 0 <= j < i ==> self.video_exts@[j]@ != ext@,
            decreases n - i,
        {
            if self.video_exts[i].eq(&needle) {
                proof {
                    assert(video_exts_spec()[i as int] == self.video_exts@[i as int]@);
                }
                return true;
            }
            i = i + 1;
        }
        proof {
            assert forall|j: int| 0 <= j < video_exts_spec().len() implies video_exts_spec()[j]
                != ext@ by {
                assert(video_exts_spec()[j] == self.video_exts@[j]@);
            }
        }
        false
    }

    /// Whether `ext` (already lower case) is a recognized image extension.
    pub fn is_image_ext(&self, ext: &str) -> (r: bool)
        requires
            self.wf(),
        ensures
            r == image_exts_spec().contains(ext@),
    {
        let needle: String = ext.to_owned();
        let n = self.image_exts.len();
        let mut i: usize = 0;
        while i < n
            invariant
                self.wf(),
                n == self.image_exts@.len(),
                i <= n,
                needle@ == ext@,
                forall|j: int| 0 <= j < i ==> self.image_exts@[j]@ != ext@,
            decreases n - i,
        {
            if self.image_exts[i].eq(&needle) {
                proof {
                    assert(image_exts_spec()[i as int] == self.image_exts@[i as int]@);
                }
                return true;
            }
            i = i + 1;
        }
        proof {
            assert forall|j: int| 0 <= j < image_exts_spec().len() implies image_exts_spec()[j]
                != ext@ by {
                assert(image_exts_spec()[j] == self.image_exts@[j]@);
            }
        }
        false
    }

    /// Whether the file at `path` is recognized media: its extension,
    /// folded to lower case, is a known video or image extension.
    pub fn is_media_file(&self, path: &str) -> (r: bool)
        requires
            self.wf(),
        ensures
            r == is_media_spec(path@),
    {
        match extension_of(path) {
            Some(e) => {
                let low = ascii_lower_str(e.as_str());
                self.is_video_ext(low.as_str()) || self.is_image_ext(low.as_str())
            },
            None => false,
        }
    }

    /// Whether the file at `path` is a recognized image.
    pub fn is_image(&self, path: &str) -> (r: bool)
        requires
            self.wf(),
        ensures
            r == is_image_spec(path@),
    {
        match extension_of(path) {
            Some(e) => {
                let low = ascii_lower_str(e.as_str());
                self.is_image_ext(low.as_str())
            },
            None => false,
        }
    }
}

} // verus!
