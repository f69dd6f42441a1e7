//! Where a stream's bytes go: the console, or a file opened to truncate or
//! to append.

use vstd::prelude::*;

verus! {

/// How a redirect target is opened.
#[derive(Clone, Copy, Debug, PartialEq, Eq)]
pub enum OpenMode {
    /// The file's previous contents are discarded.
    Truncate,
    /// New bytes follow the file's previous contents.
    Append,
}

/// The destination of one output stream.
#[derive(Debug)]
pub enum StreamTarget {
    Console,
    File { path: String, mode: OpenMode },
}

/// The mathematical value of a [`StreamTarget`].
pub enum TargetView {
    Console,
    File { path: Seq<char>, mode: OpenMode },
}

impl View for StreamTarget {
    type V = TargetView;

    open spec fn view(&self) -> TargetView {
        match self {
            StreamTarget::Console => TargetView::Console,
            StreamTarget::File { path, mode } => TargetView::File { path: path@, mode: *mode },
        }
    }
}

/// The mode that an append flag selects.
pub open spec fn mode_of(append: bool) -> OpenMode {
    if append {
        OpenMode::Append
    } else {
        OpenMode::Truncate
    }
}

/// The target that a redirect flag, a path and an append flag describe: the
/// console unless the stream is redirected.
pub open spec fn target_of(redirect: bool, path: Seq<char>, append: bool) -> TargetView {
    if redirect {
        TargetView::File { path, mode: mode_of(append) }
    } else {
        TargetView::Console
    }
}

/// Builds the target that a redirect flag, a path and an append flag
/// describe.
pub fn select_target(redirect: bool, file_path: &String, append: bool) -> (target: StreamTarget)
    ensures
        target@ == target_of(redirect, file_path@, append),
{
    if redirect {
        let mode = if append {
            OpenMode::Append
        } else {
            OpenMode::Truncate
        };
        StreamTarget::File { path: file_path.clone(), mode }
    } else {
        StreamTarget::Console
    }
}

} // verus!
