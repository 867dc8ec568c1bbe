//! The categories of files, the extensions that select them and the folders
//! that collect them.
use vstd::prelude::*;
use crate::path::{chars_of, extension, extension_of};

verus! {

/// What kind of file a path names, judged by its extension alone.
#[derive(Clone, Copy, Debug, PartialEq, Eq, Structural)]
pub enum Category {
    Text,
    Image,
    Zip,
    Other,
}

/// The category that an extension selects. Extensions are compared letter
/// for letter: `TXT` is not `txt`.
pub open spec fn category_of_extension(ext: Seq<char>) -> Category {
    if ext == "txt"@ {
        Category::Text
    } else if ext == "jpg"@ || ext == "jpeg"@ || ext == "png"@ {
        Category::Image
    } else if ext == "zip"@ {
        Category::Zip
    } else {
        Category::Other
    }
}

/// The category of a path: that of its extension, and `Other` where it has
/// none.
pub open spec fn category_of(path: Seq<char>) -> Category {
    match extension_of(path) {
        Some(ext) => category_of_extension(ext),
        None => Category::Other,
    }
}

/// Each category but `Other` is selected by its own extensions and by no
/// others, and `Other` by all the rest.
pub proof fn lemma_category_table(ext: Seq<char>)
    ensures
        category_of_extension(ext) == Category::Text <==> ext == "txt"@,
        category_of_extension(ext) == Category::Image <==> (ext == "jpg"@ || ext == "jpeg"@ || ext
            == "png"@),
        category_of_extension(ext) == Category::Zip <==> ext == "zip"@,
        category_of_extension(ext) == Category::Other <==> !(ext == "txt"@ || ext == "jpg"@ || ext
            == "jpeg"@ || ext == "png"@ || ext == "zip"@),
{
    reveal_strlit("txt");
    reveal_strlit("jpg");
    reveal_strlit("jpeg");
    reveal_strlit("png");
    reveal_strlit("zip");
    assert("txt"@[0] != "jpg"@[0]);
    assert("txt"@[0] != "jpeg"@[0]);
    assert("txt"@[0] != "png"@[0]);
    assert("txt"@[0] != "zip"@[0]);
    assert("zip"@[0] != "jpg"@[0]);
    assert("zip"@[0] != "jpeg"@[0]);
    assert("zip"@[0] != "png"@[0]);
}

impl Category {
    /// The name of the folder that collects the files of this category.
    pub open spec fn folder(self) -> Seq<char> {
        match self {
            Category::Text => "text_files"@,
            Category::Image => "image_files"@,
            Category::Zip => "zip_files"@,
            Category::Other => "other_files"@,
        }
    }

    /// The name of the folder that collects the files of this category.
    pub fn subdirectory_name(self) -> (name: &'static str)
        ensures
            name@ == self.folder(),
    {
        match self {
            Category::Text => "text_files",
            Category::Image => "image_files",
            Category::Zip => "zip_files",
            Category::Other => "other_files",
        }
    }

    /// The category that the extension `ext` selects.
    pub fn from_extension(ext: &str) -> (category: Category)
        ensures
            category == category_of_extension(ext@),
    {
        let chars = chars_of(ext);
        if same_chars(&chars, "txt") {
            Category::Text
        } else if same_chars(&chars, "jpg") || same_chars(&chars, "jpeg") || same_chars(
            &chars,
            "png",
        ) {
            Category::Image
        } else if same_chars(&chars, "zip") {
            Category::Zip
        } else {
            Category::Other
        }
    }
}

/// Whether `chars` spells `word`.
fn same_chars(chars: &Vec<char>, word: &str) -> (same: bool)
    ensures
        same == (chars@ == word@),
{
    let other = chars_of(word);
    if chars.len() != other.len() {
        return false;
    }
    let mut i: usize = 0;
    while i < chars.len()
        invariant
            other@ == word@,
            i <= chars.len() == other.len(),
            chars@.take(i as int) == other@.take(i as int),
        decreases chars.len() - i,
    {
        if chars[i] != other[i] {
            return false;
        }
        assert(chars@.take(i + 1) == chars@.take(i as int).push(chars[i as int]));
        assert(other@.take(i + 1) == other@.take(i as int).push(other[i as int]));
        i = i + 1;
    }
    assert(chars@.take(i as int) == chars@);
    assert(other@.take(i as int) == other@);
    true
}

/// The category of the file at `path`, chosen by the extension of its file
/// name: `txt` is text; `jpg`, `jpeg` and `png` are images; `zip` is a zip
/// archive; every other extension, and a name without one, is `Other`.
pub fn classify(path: &str) -> (category: Category)
    ensures
        category == category_of(path@),
{
    match extension(path) {
        Some(ext) => Category::from_extension(ext),
        None => Category::Other,
    }
}

} // verus!
