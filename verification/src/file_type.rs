//! The kinds of files that the list tells apart.

use vstd::prelude::*;

verus! {

/// The kind of a file.
#[derive(Clone, Copy, Debug, PartialEq, Eq, Structural)]
pub enum FileType {
    Directory,
    Executable,
    Symlink,
    Fifo,
    Socket,
    CharDevice,
    BlockDevice,
    Other,
}

/// What the file system says of the kind of a file.
#[derive(Clone, Copy, Debug, PartialEq, Eq, Structural)]
pub struct Kind {
    pub is_dir: bool,
    pub is_symlink: bool,
    pub is_fifo: bool,
    pub is_socket: bool,
    pub is_char_device: bool,
    pub is_block_device: bool,
    /// The permission bits.
    pub mode: u32,
}

/// The kind of a file: what the file system calls it, and for a regular
/// file whether everyone may execute it.
pub open spec fn file_type_of(kind: Kind) -> FileType {
    if kind.is_dir {
        FileType::Directory
    } else if kind.is_symlink {
        FileType::Symlink
    } else if kind.is_fifo {
        FileType::Fifo
    } else if kind.is_socket {
        FileType::Socket
    } else if kind.is_char_device {
        FileType::CharDevice
    } else if kind.is_block_device {
        FileType::BlockDevice
    } else if kind.mode % 2 == 1 {
        FileType::Executable
    } else {
        FileType::Other
    }
}

/// The character that follows the name of a file of this kind.
pub open spec fn suffix_of(file_type: FileType) -> Option<char> {
    match file_type {
        FileType::Directory => Some('/'),
        FileType::Executable => Some('*'),
        FileType::Symlink => Some('@'),
        FileType::Fifo => Some('|'),
        _ => None,
    }
}

impl FileType {
    /// The kind of a file.
    pub fn of(kind: Kind) -> (r: FileType)
        ensures
            r == file_type_of(kind),
    {
        if kind.is_dir {
            FileType::Directory
        } else if kind.is_symlink {
            FileType::Symlink
        } else if kind.is_fifo {
            FileType::Fifo
        } else if kind.is_socket {
            FileType::Socket
        } else if kind.is_char_device {
            FileType::CharDevice
        } else if kind.is_block_device {
            FileType::BlockDevice
        } else if kind.mode % 2 == 1 {
            FileType::Executable
        } else {
            FileType::Other
        }
    }

    /// The character that follows the name of a file of this kind.
    pub fn suffix(&self) -> (r: Option<char>)
        ensures
            r == suffix_of(*self),
    {
        match self {
            FileType::Directory => Some('/'),
            FileType::Executable => Some('*'),
            FileType::Symlink => Some('@'),
            FileType::Fifo => Some('|'),
            _ => None,
        }
    }
}

} // verus!
