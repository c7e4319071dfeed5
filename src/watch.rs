//! What is watched, and what becomes of a path whose watch fails.
use vstd::prelude::*;
use crate::event::string_views;

verus! {

/// A path to watch, with the whole tree under it or on its own.
#[derive(Debug)]
pub struct WatchTarget {
    pub path: String,
    pub recursive: bool,
}

/// Why a watch could not be registered.
#[derive(Debug)]
pub enum WatchError {
    /// The path does not exist.
    PathNotFound(String),
    /// The operating system has no more watches to give.
    WatchLimitExceeded,
}

/// What to do about a path whose watch reported an error.
#[derive(Clone, Copy, Debug, PartialEq, Eq, Structural)]
pub enum Recovery {
    /// Register the watch on it again.
    Reregister,
    /// Give the path up: its watch failed again after a new registration.
    Drop,
}

/// The paths whose watch failed once and was registered again.
pub struct RetryPolicy {
    retried: Vec<String>,
}

impl View for RetryPolicy {
    type V = Seq<Seq<char>>;

    closed spec fn view(&self) -> Seq<Seq<char>> {
        string_views(self.retried@)
    }
}

impl RetryPolicy {
    /// A policy under which no path has failed yet.
    pub fn new() -> (r: RetryPolicy)
        ensures
            r@ == Seq::<Seq<char>>::empty(),
    {
        let r = RetryPolicy { retried: Vec::new() };
        assert(r@ =~= Seq::<Seq<char>>::empty());
        r
    }

    /// The decision on an error on the watch of `path`: the first error is
    /// retried with a new registration, a second one drops the path.
    pub fn on_error(&mut self, path: &String) -> (r: Recovery)
        ensures
            old(self)@.contains(path@) ==> r is Drop && final(self)@ == old(self)@,
            !old(self)@.contains(path@) ==> r is Reregister && final(self)@ == old(self)@.push(path@),
    {
        let mut i: usize = 0;
        while i < self.retried.len()
            invariant
                i <= self.retried@.len(),
                forall|j: int| 0 <= j < i ==> self@[j] != path@,
            decreases self.retried.len() - i,
        {
            if self.retried[i] == *path {
                assert(self@[i as int] == path@);
                return Recovery::Drop;
            }
            i = i + 1;
        }
        let ghost before = self@;
        self.retried.push(path.clone());
        assert(self@ =~= before.push(path@));
        Recovery::Reregister
    }
}

} // verus!
