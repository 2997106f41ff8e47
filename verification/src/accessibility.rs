use vstd::prelude::*;
use std::collections::HashMap;

verus! {

/// Why a window's accessibility handle could not be resolved or acted on.
#[derive(Clone, Copy, Debug, PartialEq, Eq)]
pub enum Error {
    /// The raise action on the window was rejected.
    CouldNotFocusWindow,
    /// No accessibility element could be created for the owning process.
    CouldNotGetWindowArray,
    /// The process's window array attribute could not be read.
    CouldNotGetWindowsAccessibility,
    /// No window in the process's window array carries this window id.
    WindowNotFound(u32),
    /// Making the application frontmost or the window its main window was
    /// rejected.
    CouldNotBringWindowToFront,
}

/// Index of the first entry of a process's accessibility window array that
/// resolved to the window id sought.
///
/// `window_ids` holds, in array order, the window-server id read from each
/// element, or `None` where the id could not be read; such entries are
/// skipped, as a failed read says nothing about the window.
pub fn find_window_index(window_ids: &Vec<Option<u32>>, window_id: u32) -> (r: Result<
    usize,
    Error,
>)
    ensures
        match r {
            Ok(i) => i < window_ids@.len() && window_ids@[i as int] == Some(window_id) && forall|
                j: int,
            | 0 <= j < i ==> #[trigger] window_ids@[j] != Some(window_id),
            Err(e) => e == Error::WindowNotFound(window_id) && forall|j: int|
                0 <= j < window_ids@.len() ==> #[trigger] window_ids@[j] != Some(window_id),
        },
{
    let mut i: usize = 0;
    while i < window_ids.len()
        invariant
            i <= window_ids@.len(),
            forall|j: int| 0 <= j < i ==> #[trigger] window_ids@[j] != Some(window_id),
        decreases window_ids@.len() - i,
    {
        match window_ids[i] {
            Some(id) => {
                if id == window_id {
                    return Ok(i);
                }
            },
            None => {},
        }
        i = i + 1;
    }
    Err(Error::WindowNotFound(window_id))
}

/// The outcome of looking a window up in its owner's accessibility tree.
///
/// `application_created` says whether an accessibility element for the owning
/// process could be created at all, and `window_ids` carries the process's
/// window array as read through that element, or `None` where the array
/// attribute could not be read. On success the result is the index of the
/// window's element in the array.
pub fn resolve_window_scan(
    application_created: bool,
    window_ids: Option<&Vec<Option<u32>>>,
    window_id: u32,
) -> (r: Result<usize, Error>)
    ensures
        !application_created ==> r == Err::<usize, Error>(Error::CouldNotGetWindowArray),
        application_created && window_ids is None ==> r == Err::<usize, Error>(
            Error::CouldNotGetWindowsAccessibility,
        ),
        application_created && window_ids is Some ==> match r {
            Ok(i) => i < window_ids->0@.len() && window_ids->0@[i as int] == Some(window_id)
                && forall|j: int| 0 <= j < i ==> #[trigger] window_ids->0@[j] != Some(window_id),
            Err(e) => e == Error::WindowNotFound(window_id) && forall|j: int|
                0 <= j < window_ids->0@.len() ==> #[trigger] window_ids->0@[j] != Some(window_id),
        },
{
    if !application_created {
        return Err(Error::CouldNotGetWindowArray);
    }
    match window_ids {
        None => Err(Error::CouldNotGetWindowsAccessibility),
        Some(ids) => find_window_index(ids, window_id),
    }
}

/// Cache of resolved accessibility window handles, keyed by the window
/// server's window id.
///
/// The handle type is whatever the caller resolves a window to; the cache
/// itself only promises how its contents evolve: the first handle admitted
/// for an id is the one every later lookup returns.
pub struct Store<V> {
    cached_windows: HashMap<u32, V>,
}

impl<V> View for Store<V> {
    type V = Map<u32, V>;

    closed spec fn view(&self) -> Map<u32, V> {
        self.cached_windows@
    }
}

impl<V> Default for Store<V> {
    /// An empty cache.
    fn default() -> (r: Self)
        ensures
            r@ == Map::<u32, V>::empty(),
    {
        Store { cached_windows: HashMap::new() }
    }
}

impl<V> Store<V> {
    /// Whether a handle for this window id is already cached.
    pub fn contains_window(&self, window_id: u32) -> (b: bool)
        ensures
            b == self@.contains_key(window_id),
    {
        self.cached_windows.contains_key(&window_id)
    }

    /// Cache a handle for this window id, unless one is already there: a
    /// handle already cached is kept, not replaced.
    pub fn admit_window(&mut self, window_id: u32, handle: V)
        ensures
            final(self)@ == (if old(self)@.contains_key(window_id) {
                old(self)@
            } else {
                old(self)@.insert(window_id, handle)
            }),
    {
        if !self.cached_windows.contains_key(&window_id) {
            self.cached_windows.insert(window_id, handle);
        }
    }

    /// The cached handle for this window id.
    pub fn cached_window(&self, window_id: u32) -> (r: Result<&V, Error>)
        ensures
            match r {
                Ok(handle) => self@.contains_key(window_id) && *handle == self@[window_id],
                Err(e) => e == Error::WindowNotFound(window_id) && !self@.contains_key(window_id),
            },
    {
        match self.cached_windows.get(&window_id) {
            Some(handle) => Ok(handle),
            None => Err(Error::WindowNotFound(window_id)),
        }
    }
}

} // verus!
