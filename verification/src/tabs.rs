//! The tab bar of the dashboard: one tab per node, one of them active.

use vstd::prelude::*;

verus! {

/// The index that follows `index` among `count` tabs; after the last comes the first.
pub open spec fn next_index(index: int, count: int) -> int
    recommends
        count > 0,
{
    (index + 1) % count
}

/// The index that precedes `index` among `count` tabs; before the first comes the last.
pub open spec fn previous_index(index: int, count: int) -> int
    recommends
        count > 0,
{
    if index > 0 {
        index - 1
    } else {
        count - 1
    }
}

/// The state of the tab bar: the titles of the tabs and the index of the active one.
pub struct App<'a> {
    pub titles: Vec<&'a str>,
    pub index: usize,
}

impl<'a> App<'a> {
    /// Whether the active index names one of the tabs.
    pub open spec fn wf(&self) -> bool {
        self.index < self.titles.len()
    }

    /// The titles as texts.
    pub open spec fn title_texts(&self) -> Seq<Seq<char>> {
        Seq::new(self.titles.len() as nat, |i: int| self.titles[i]@)
    }

    /// A tab bar with one tab per title, the first of them active.
    pub fn new(titles: &'a [String]) -> (r: App<'a>)
        ensures
            r.index == 0,
            r.titles.len() == titles.len(),
            forall|i: int| 0 <= i < titles.len() ==> (#[trigger] r.titles[i])@ == titles[i]@,
            titles.len() > 0 ==> r.wf(),
    {
        let mut names: Vec<&'a str> = Vec::new();
        let mut i: usize = 0;
        while i < titles.len()
            invariant
                i <= titles.len(),
                names.len() == i,
                forall|k: int| 0 <= k < i ==> (#[trigger] names[k])@ == titles[k]@,
            decreases titles.len() - i,
        {
            names.push(titles[i].as_str());
            i += 1;
        }
        App { titles: names, index: 0 }
    }

    /// Makes the tab to the right the active one; from the last tab it goes to the first.
    pub fn next(&mut self)
        requires
            old(self).titles.len() > 0,
            old(self).index < usize::MAX,
        ensures
            final(self).titles == old(self).titles,
            final(self).index == next_index(old(self).index as int, old(self).titles.len() as int),
            final(self).wf(),
    {
        self.index = (self.index + 1) % self.titles.len();
    }

    /// Makes the tab to the left the active one; from the first tab it goes to the last.
    pub fn previous(&mut self)
        requires
            old(self).index > 0 || old(self).titles.len() > 0,
        ensures
            final(self).titles == old(self).titles,
            final(self).index == previous_index(
                old(self).index as int,
                old(self).titles.len() as int,
            ),
            old(self).wf() ==> final(self).wf(),
    {
        if self.index > 0 {
            self.index -= 1;
        } else {
            self.index = self.titles.len() - 1;
        }
    }
}

/// From the first tab `previous` leads to the last, and from the last tab
/// `next` leads to the first.
pub proof fn lemma_navigation_wraps(count: int)
    requires
        count > 0,
    ensures
        previous_index(0, count) == count - 1,
        next_index(count - 1, count) == 0,
{
    assert((count - 1 + 1) % count == 0) by (nonlinear_arith)
        requires
            count > 0,
    ;
}

/// Going right and then left, or left and then right, comes back to the same tab.
pub proof fn lemma_navigation_inverse(index: int, count: int)
    requires
        0 <= index < count,
    ensures
        previous_index(next_index(index, count), count) == index,
        next_index(previous_index(index, count), count) == index,
        0 <= next_index(index, count) < count,
        0 <= previous_index(index, count) < count,
{
    if index + 1 < count {
        assert((index + 1) % count == index + 1) by (nonlinear_arith)
            requires
                0 <= index + 1 < count,
        ;
    } else {
        assert((index + 1) % count == 0) by (nonlinear_arith)
            requires
                index + 1 == count,
                count > 0,
        ;
    }
    if index > 0 {
        assert((index - 1 + 1) % count == index) by (nonlinear_arith)
            requires
                0 <= index < count,
        ;
    } else {
        assert((count - 1 + 1) % count == 0) by (nonlinear_arith)
            requires
                count > 0,
        ;
    }
}

} // verus!
