use vstd::prelude::*;

verus! {

/// How to handle a destination that already exists.
#[derive(Debug, Clone, Copy, PartialEq, Eq, PartialOrd, Ord, Hash, Structural)]
pub enum OnExists {
    /// Only reflink by creating new files, error if the destination exists.
    CreateNewOnly,
    /// Only reflink by overriding files, error if the destination does not exist.
    ExistsOnly,
    /// Create the destination if it does not exist, otherwise open it.
    Create,
}

/// The open flags that matter to a clone, as plain values
/// (`O_CREAT`, `O_EXCL`, `O_RDWR`, `O_TMPFILE`).
#[derive(Debug, Clone, Copy, PartialEq, Eq, Hash, Structural)]
pub struct OpenFlags {
    pub create: bool,
    pub exclusive: bool,
    pub read_write: bool,
    pub tmpfile: bool,
}

/// What opening a path with given flags does, by whether the path exists
/// (for a temporary-file open: whether the anchor directory exists).
#[derive(Debug, Clone, Copy, PartialEq, Eq, Hash, Structural)]
pub enum PathOpen {
    /// A new file is created at the path.
    Created,
    /// The existing file is opened as it is.
    Opened,
    /// The open fails with "already exists".
    FailsExists,
    /// The open fails with "not found".
    FailsNotFound,
    /// An unnamed file is created on the path's filesystem; no entry appears.
    Unnamed,
}

/// The effect of `openat` on a path with the given flags: an exclusive create
/// fails on an existing path, an open without create fails on a missing one,
/// and a temporary-file open on an existing directory leaves that directory
/// as it was.
pub open spec fn open_effect(f: OpenFlags, exists: bool) -> PathOpen {
    if f.tmpfile {
        if exists {
            PathOpen::Unnamed
        } else {
            PathOpen::FailsNotFound
        }
    } else if exists {
        if f.create && f.exclusive {
            PathOpen::FailsExists
        } else {
            PathOpen::Opened
        }
    } else if f.create {
        PathOpen::Created
    } else {
        PathOpen::FailsNotFound
    }
}

impl OnExists {
    /// The flags that give this policy: every destination is opened for
    /// reading and writing; `CreateNewOnly` creates exclusively, `Create`
    /// creates when absent, `ExistsOnly` never creates.
    pub open spec fn flags(self) -> OpenFlags {
        OpenFlags {
            create: self != OnExists::ExistsOnly,
            exclusive: self == OnExists::CreateNewOnly,
            read_write: true,
            tmpfile: false,
        }
    }

    /// Get the flags resulting in the desired behaviour.
    pub fn as_flags(self) -> (r: OpenFlags)
        ensures
            r == self.flags(),
    {
        match self {
            OnExists::CreateNewOnly => OpenFlags {
                create: true,
                exclusive: true,
                read_write: true,
                tmpfile: false,
            },
            OnExists::ExistsOnly => OpenFlags {
                create: false,
                exclusive: false,
                read_write: true,
                tmpfile: false,
            },
            OnExists::Create => OpenFlags {
                create: true,
                exclusive: false,
                read_write: true,
                tmpfile: false,
            },
        }
    }
}

/// The flags of an unnamed clone: read-write, as an unnamed temporary file.
pub open spec fn unlinked_flags_spec() -> OpenFlags {
    OpenFlags { create: false, exclusive: false, read_write: true, tmpfile: true }
}

/// Get the flags for an unnamed clone anchored at a directory.
pub fn unlinked_flags() -> (r: OpenFlags)
    ensures
        r == unlinked_flags_spec(),
        open_effect(r, true) == PathOpen::Unnamed,
{
    OpenFlags { create: false, exclusive: false, read_write: true, tmpfile: true }
}

} // verus!
