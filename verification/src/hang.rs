//! Finding the window that hangs: of the top-level windows, in the order in
//! which the system lists them, the first that belongs to the crashed process
//! and does not respond.
use vstd::prelude::*;

verus! {

/// What the system says of one top-level window.
#[derive(Clone, Copy, PartialEq, Eq, Structural, Debug)]
pub struct WindowInfo {
    /// Id of the thread that made the window; zero where the query failed.
    pub thread_id: u32,
    /// Id of the process that the window belongs to.
    pub process_id: u32,
    /// Whether the system has marked the window as not responding.
    pub is_hung: bool,
}

/// Whether `window` is a hung window of the process `process_id`.
pub open spec fn is_hung_window_of(window: WindowInfo, process_id: u32) -> bool {
    window.thread_id != 0 && window.process_id == process_id && window.is_hung
}

/// The thread of the first hung window of `process_id` among `windows`.
pub open spec fn first_hung_thread(windows: Seq<WindowInfo>, process_id: u32) -> Option<u32>
    decreases windows.len(),
{
    if windows.len() == 0 {
        None
    } else if is_hung_window_of(windows[0], process_id) {
        Some(windows[0].thread_id)
    } else {
        first_hung_thread(windows.skip(1), process_id)
    }
}

/// The state of a walk over the windows.
#[derive(Clone, Copy, PartialEq, Eq, Structural, Debug)]
pub struct WindowSearch {
    /// Id of the process whose windows are looked for.
    pub process_id: u32,
    /// Thread of the hung window, once one is found.
    pub ui_thread_id: Option<u32>,
}

impl WindowSearch {
    /// A walk that has seen no window yet.
    pub fn new(process_id: u32) -> (search: WindowSearch)
        ensures
            search.process_id == process_id,
            search.ui_thread_id is None,
    {
        WindowSearch { process_id, ui_thread_id: None }
    }

    /// Whether a window made by `thread_id` for `process_id` is worth asking
    /// about: only of such a window need the system say whether it hangs.
    pub fn is_candidate(&self, thread_id: u32, process_id: u32) -> (r: bool)
        ensures
            r == (thread_id != 0 && process_id == self.process_id),
    {
        thread_id != 0 && process_id == self.process_id
    }

    /// Takes note of the next window. Returns whether the walk goes on: it
    /// stops at the first hung window of the process.
    pub fn visit(&mut self, window: WindowInfo) -> (go_on: bool)
        ensures
            final(self).process_id == old(self).process_id,
            go_on == !is_hung_window_of(window, old(self).process_id),
            go_on ==> final(self).ui_thread_id == old(self).ui_thread_id,
            !go_on ==> final(self).ui_thread_id == Some(window.thread_id),
    {
        if self.is_candidate(window.thread_id, window.process_id) && window.is_hung {
            self.ui_thread_id = Some(window.thread_id);
            false
        } else {
            true
        }
    }

    /// The thread that the walk found, or failure.
    pub fn found(&self) -> (r: Result<u32, ()>)
        ensures
            match self.ui_thread_id {
                Some(thread_id) => r == Ok::<u32, ()>(thread_id),
                None => r is Err,
            },
    {
        match self.ui_thread_id {
            Some(thread_id) => Ok(thread_id),
            None => Err(()),
        }
    }
}

/// Finds the thread of the first hung window of the process `process_id` among
/// `windows`. Fails where there is none, and for the id zero, which stands for
/// a process whose id could not be had.
pub fn find_hung_window_thread(process_id: u32, windows: &Vec<WindowInfo>) -> (r: Result<u32, ()>)
    ensures
        match r {
            Ok(thread_id) => process_id != 0 && first_hung_thread(windows@, process_id) == Some(
                thread_id,
            ),
            Err(_) => process_id == 0 || first_hung_thread(windows@, process_id) is None,
        },
{
    if process_id == 0 {
        return Err(());
    }
    let mut search = WindowSearch::new(process_id);
    let mut i: usize = 0;
    assert(windows@.skip(0) == windows@);
    while i < windows.len()
        invariant
            i <= windows.len(),
            process_id != 0,
            search.process_id == process_id,
            search.ui_thread_id is None,
            first_hung_thread(windows@, process_id) == first_hung_thread(
                windows@.skip(i as int),
                process_id,
            ),
        decreases windows.len() - i,
    {
        let ghost rest = windows@.skip(i as int);
        proof {
            assert(rest[0] == windows@[i as int]);
            assert(rest.skip(1) == windows@.skip(i + 1));
        }
        if !search.visit(windows[i]) {
            assert(first_hung_thread(rest, process_id) == Some(rest[0].thread_id));
            return search.found();
        }
        assert(first_hung_thread(rest, process_id) == first_hung_thread(rest.skip(1), process_id));
        i = i + 1;
    }
    assert(windows@.skip(i as int).len() == 0);
    search.found()
}

/// The thread found is that of a hung window of the process, and no window
/// listed before it is one.
pub proof fn lemma_first_hung_thread(windows: Seq<WindowInfo>, process_id: u32)
    ensures
        match first_hung_thread(windows, process_id) {
            Some(thread_id) => exists|k: int|
                0 <= k < windows.len() && is_hung_window_of(#[trigger] windows[k], process_id)
                    && windows[k].thread_id == thread_id && forall|j: int|
                    0 <= j < k ==> !is_hung_window_of(#[trigger] windows[j], process_id),
            None => forall|j: int|
                0 <= j < windows.len() ==> !is_hung_window_of(#[trigger] windows[j], process_id),
        },
    decreases windows.len(),
{
    if windows.len() > 0 {
        if is_hung_window_of(windows[0], process_id) {
            assert(is_hung_window_of(windows[0], process_id) && windows[0].thread_id
                == first_hung_thread(windows, process_id)->0);
        } else {
            let rest = windows.skip(1);
            lemma_first_hung_thread(rest, process_id);
            match first_hung_thread(rest, process_id) {
                Some(thread_id) => {
                    let k = choose|k: int|
                        0 <= k < rest.len() && is_hung_window_of(#[trigger] rest[k], process_id)
                            && rest[k].thread_id == thread_id && forall|j: int|
                            0 <= j < k ==> !is_hung_window_of(#[trigger] rest[j], process_id);
                    assert(windows[k + 1] == rest[k]);
                    assert forall|j: int| 0 <= j < k + 1 implies !is_hung_window_of(
                        #[trigger] windows[j],
                        process_id,
                    ) by {
                        if j > 0 {
                            assert(windows[j] == rest[j - 1]);
                        }
                    }
                },
                None => {
                    assert forall|j: int| 0 <= j < windows.len() implies !is_hung_window_of(
                        #[trigger] windows[j],
                        process_id,
                    ) by {
                        if j > 0 {
                            assert(windows[j] == rest[j - 1]);
                        }
                    }
                },
            }
        }
    }
}

} // verus!
