//! Launch-time decisions.
//!
//! At process start the backend scans its command-line arguments for message
//! files, and a second instance forwards its own arguments to the running
//! one, which scans them the same way. While the process runs, OS-level
//! file-open events are routed: straight to the UI layer when it is ready,
//! into the hand-off store otherwise, and never anywhere when the path is not
//! a recognized message file.

use vstd::prelude::*;
use crate::paths::is_recognized_path;
use crate::paths::recognized_path;
use crate::pending::PendingFiles;

verus! {

/// The recognized message-file paths among `args`, in order.
pub open spec fn recognized_of(args: Seq<Seq<char>>) -> Seq<Seq<char>>
    decreases args.len(),
{
    if args.len() == 0 {
        Seq::<Seq<char>>::empty()
    } else if recognized_path(args.last()) {
        recognized_of(args.drop_last()).push(args.last())
    } else {
        recognized_of(args.drop_last())
    }
}

/// The recognized message-file paths among the command-line arguments after
/// the executable name, in order.
pub open spec fn recognized_launch_args(args: Seq<Seq<char>>) -> Seq<Seq<char>> {
    if args.len() == 0 {
        Seq::<Seq<char>>::empty()
    } else {
        recognized_of(args.skip(1))
    }
}

/// Scans command-line arguments (the executable name first) and appends each
/// recognized message-file path to the hand-off store, in argument order;
/// every other argument is dropped and never stored.
///
/// Both the startup scan of this process's own arguments and the handling of
/// arguments forwarded by a second instance go through this function.
pub fn record_launch_args(store: &mut PendingFiles, args: &Vec<String>)
    ensures
        final(store)@ == old(store)@ + recognized_launch_args(args.deep_view()),
{
    let ghost all = args.deep_view();
    if args.len() == 0 {
        proof {
            assert(old(store)@ + recognized_launch_args(all) =~= old(store)@);
        }
        return;
    }
    let mut i: usize = 1;
    while i < args.len()
        invariant
            1 <= i <= args.len(),
            all == args.deep_view(),
            store@ == old(store)@ + recognized_of(all.subrange(1, i as int)),
        decreases args.len() - i,
    {
        let ghost done = all.subrange(1, i as int);
        proof {
            assert(all.subrange(1, i + 1).drop_last() =~= done);
            assert(all.subrange(1, i + 1).last() == all[i as int]);
            assert(all[i as int] == args@[i as int]@);
        }
        if is_recognized_path(args[i].as_str()) {
            let path = (&args[i]).clone();
            store.append(path);
            proof {
                assert(store@ =~= old(store)@ + recognized_of(all.subrange(1, i + 1)));
            }
        } else {
            proof {
                assert(recognized_of(all.subrange(1, i + 1)) == recognized_of(done));
            }
        }
        i = i + 1;
    }
    proof {
        assert(all.subrange(1, args@.len() as int) =~= all.skip(1));
    }
}

/// What the process must do with a path delivered by an OS file-open event.
#[derive(Clone, Copy, Debug, PartialEq, Eq, Structural)]
pub enum FileOpenDisposition {
    /// Tell the UI layer at once: it is running and can receive the path.
    Notify,
    /// Hold the path in the hand-off store until the UI layer drains it.
    Defer,
    /// Not a recognized message file: drop it with a diagnostic.
    Discard,
}

/// Routes one file-open event. A recognized path goes straight to the UI
/// layer when it is ready and into the hand-off store otherwise; an
/// unrecognized path is discarded and never stored.
pub fn route_file_open(store: &mut PendingFiles, path: String, ui_ready: bool) -> (d:
    FileOpenDisposition)
    ensures
        d == (if !recognized_path(path@) {
            FileOpenDisposition::Discard
        } else if ui_ready {
            FileOpenDisposition::Notify
        } else {
            FileOpenDisposition::Defer
        }),
        final(store)@ == (if recognized_path(path@) && !ui_ready {
            old(store)@.push(path@)
        } else {
            old(store)@
        }),
{
    if is_recognized_path(path.as_str()) {
        if ui_ready {
            FileOpenDisposition::Notify
        } else {
            store.append(path);
            FileOpenDisposition::Defer
        }
    } else {
        FileOpenDisposition::Discard
    }
}

} // verus!
