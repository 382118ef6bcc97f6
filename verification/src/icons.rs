//! The icon that stands before a file's name.

use vstd::prelude::*;
use crate::file_manager::FileInfo;

verus! {

/// The icon of an extension in a table of extensions and icons: that of the
/// last line for the extension, if there is one.
pub open spec fn icon_in(table: Seq<(&'static str, &'static str)>, extension: Seq<char>) -> Option<
    &'static str,
>
    decreases table.len(),
{
    if table.len() == 0 {
        None
    } else if table.last().0@ == extension {
        Some(table.last().1)
    } else {
        icon_in(table.drop_last(), extension)
    }
}

/// The table of the icons that are known.
pub open spec fn known_icons() -> Seq<(&'static str, &'static str)> {
    seq![
        ("png", "\u{f1c5}"),
        ("jpg", "\u{f1c5}"),
        ("webp", "\u{f1c5}"),
        ("mp4", "\u{f03d}"),
        ("mkv", "\u{f03d}"),
        ("avi", "\u{f03d}"),
        ("flv", "\u{f03d}"),
        ("webm", "\u{f03d}"),
        ("yaml", "\u{f013}"),
        ("yml", "\u{f013}"),
        ("toml", "\u{f013}"),
        ("conf", "\u{f013}"),
        ("md", "\u{f60f}"),
        ("py", "\u{f3e2}"),
        ("java", "\u{f4e4}"),
        ("java", "\u{f3b8}"),
    ]
}

/// The icons of files.
#[derive(Debug)]
pub struct Icons {
    pub directory: &'static str,
    pub file: &'static str,
    pub from_extension: Vec<(&'static str, &'static str)>,
}

impl Icons {
    /// The icons that are known.
    pub fn new() -> (icons: Icons)
        ensures
            icons.directory == "\u{f07b}",
            icons.file == "\u{f016}",
            icons.from_extension@ == known_icons(),
    {
        let mut m: Vec<(&'static str, &'static str)> = Vec::new();

        m.push(("png", "\u{f1c5}"));
        m.push(("jpg", "\u{f1c5}"));
        m.push(("webp", "\u{f1c5}"));

        m.push(("mp4", "\u{f03d}"));
        m.push(("mkv", "\u{f03d}"));
        m.push(("avi", "\u{f03d}"));
        m.push(("flv", "\u{f03d}"));
        m.push(("webm", "\u{f03d}"));

        m.push(("yaml", "\u{f013}"));
        m.push(("yml", "\u{f013}"));
        m.push(("toml", "\u{f013}"));
        m.push(("conf", "\u{f013}"));

        m.push(("md", "\u{f60f}"));

        m.push(("py", "\u{f3e2}"));
        m.push(("java", "\u{f4e4}"));
        m.push(("java", "\u{f3b8}"));

        proof {
            assert(m@ =~= known_icons());
        }
        Self { directory: "\u{f07b}", file: "\u{f016}", from_extension: m }
    }

    /// The icon of a file: that of directories for a directory, else that
    /// of the file's extension, else that of files.
    pub open spec fn icon_of(&self, file: FileInfo) -> &'static str {
        if file.metadata.is_dir {
            self.directory
        } else {
            match file.extension {
                None => self.file,
                Some(extension) => match icon_in(self.from_extension@, extension@) {
                    Some(icon) => icon,
                    None => self.file,
                },
            }
        }
    }

    fn find(&self, extension: &String) -> (r: Option<&'static str>)
        ensures
            r == icon_in(self.from_extension@, extension@),
    {
        let mut i: usize = self.from_extension.len();
        proof {
            assert(self.from_extension@.take(i as int) =~= self.from_extension@);
        }
        while i > 0
            invariant
                i <= self.from_extension.len(),
                icon_in(self.from_extension@, extension@) == icon_in(
                    self.from_extension@.take(i as int),
                    extension@,
                ),
            decreases i,
        {
            proof {
                let upto = self.from_extension@.take(i as int);
                assert(upto.last() == self.from_extension@[i - 1]);
                assert(upto.drop_last() =~= self.from_extension@.take(i - 1));
            }
            if self.from_extension[i - 1].0.to_string() == *extension {
                return Some(self.from_extension[i - 1].1);
            }
            i -= 1;
        }
        None
    }

    /// The icon of a file.
    pub fn get(&self, file: &FileInfo) -> (icon: &'static str)
        ensures
            icon == self.icon_of(*file),
    {
        if file.metadata.is_dir {
            return self.directory;
        }
        match &file.extension {
            None => self.file,
            Some(extension) => match self.find(extension) {
                Some(icon) => icon,
                None => self.file,
            },
        }
    }
}

} // verus!
