//! The configuration of a dialog: an ordered list of file filters.

use vstd::prelude::*;

verus! {

/// Parameters to pass to a file dialog.
pub struct DialogParams<'a> {
    /// Pairs of a filter's label and its pattern; empty means no restriction.
    pub filters: &'a [(&'a str, &'a str)],
}

/// The name under which the browser backend takes its parameters.
pub type DialogOptions<'a> = DialogParams<'a>;

impl<'a> DialogParams<'a> {
    /// The filters as pairs of character sequences, in order.
    pub open spec fn filter_list(self) -> Seq<(Seq<char>, Seq<char>)> {
        Seq::new(self.filters@.len(), |i: int| (self.filters@[i].0@, self.filters@[i].1@))
    }

    /// Creates a new `DialogParams` with nothing configured.
    pub fn new() -> (p: Self)
        ensures
            p.filters@.len() == 0,
            p.filter_list() == Seq::<(Seq<char>, Seq<char>)>::empty(),
    {
        let p = DialogParams { filters: &[] };
        assert(p.filter_list() =~= Seq::<(Seq<char>, Seq<char>)>::empty());
        p
    }

    /// Sets the filters of this `DialogParams`.
    pub fn set_filters(self, filters: &'a [(&'a str, &'a str)]) -> (p: Self)
        ensures
            p.filters@ == filters@,
            p.filter_list() == (DialogParams { filters }).filter_list(),
    {
        let mut p = self;
        p.filters = filters;
        p
    }

    /// The number of filters.
    pub fn filter_count(&self) -> (n: usize)
        ensures
            n == self.filter_list().len(),
    {
        self.filters.len()
    }
}

impl<'a> Default for DialogParams<'a> {
    fn default() -> (p: Self)
        ensures
            p.filter_list() == Seq::<(Seq<char>, Seq<char>)>::empty(),
    {
        DialogParams::new()
    }
}

} // verus!
