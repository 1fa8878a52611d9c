//! The arguments of a command, as the host hands them to a callback.

use vstd::prelude::*;

use crate::text::views;

verus! {

/// The arguments of a command call; the first is the command itself.
pub struct Args {
    items: Vec<String>,
}

/// How many of `len` strings an argument count of `argc` takes.
pub open spec fn taken(argc: i32, len: nat) -> int {
    if argc < 0 {
        0
    } else if argc as int > len {
        len as int
    } else {
        argc as int
    }
}

impl View for Args {
    type V = Seq<Seq<char>>;

    closed spec fn view(&self) -> Seq<Seq<char>> {
        views(self.items@)
    }
}

impl Args {
    /// The first `argc` strings of `argv`, in order: all of them when `argc`
    /// exceeds their number, none when it is negative.
    pub fn new(argc: i32, argv: Vec<String>) -> (r: Args)
        ensures
            r@ == views(argv@.take(taken(argc, argv@.len()))),
    {
        let mut items = argv;
        if argc < 0 {
            items.truncate(0);
        } else if (argc as usize) < items.len() {
            items.truncate(argc as usize);
        }
        proof {
            assert(items@ =~= argv@.take(taken(argc, argv@.len())));
        }
        Args { items }
    }

    /// Number of arguments.
    pub fn len(&self) -> (r: usize)
        ensures
            r == self@.len(),
    {
        self.items.len()
    }

    /// Whether there is no argument.
    pub fn is_empty(&self) -> (r: bool)
        ensures
            r == (self@.len() == 0),
    {
        self.items.len() == 0
    }

    /// The argument at `index`, if there is one.
    pub fn get(&self, index: usize) -> (r: Option<&String>)
        ensures
            index < self@.len() ==> (r matches Some(s) && s@ == self@[index as int]),
            index >= self@.len() ==> r is None,
    {
        if index < self.items.len() {
            Some(&self.items[index])
        } else {
            None
        }
    }

    /// The arguments, in order.
    pub fn into_vec(self) -> (r: Vec<String>)
        ensures
            views(r@) == self@,
    {
        self.items
    }
}

} // verus!
