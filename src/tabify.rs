//! A writer that turns each run of four spaces into a tab, so templates can
//! be written with spaces and come out tab-indented.

use vstd::prelude::*;
use vstd::string::*;

use crate::text::push_char;

verus! {

/// `s` with each run of four spaces, taken from the left, made a tab.
pub open spec fn tabified(s: Seq<char>) -> Seq<char>
    decreases s.len(),
{
    if s.len() >= 4 && s[0] == ' ' && s[1] == ' ' && s[2] == ' ' && s[3] == ' ' {
        seq!['\t'] + tabified(s.subrange(4, s.len() as int))
    } else if s.len() > 0 {
        seq![s[0]] + tabified(s.drop_first())
    } else {
        Seq::empty()
    }
}

/// Text written so far, with four spaces turned into tabs.
#[derive(Debug)]
pub struct Tabify {
    /// What has been written.
    pub inner: String,
}

/// A writer that turns four spaces into a tab.
pub fn tabify() -> (r: Tabify)
    ensures
        r.inner@ == Seq::<char>::empty(),
{
    Tabify { inner: String::new() }
}

impl Tabify {
    /// Writes `s`, each four spaces of it as a tab.
    pub fn write_str(&mut self, s: &str)
        ensures
            final(self).inner@ == old(self).inner@ + tabified(s@),
    {
        let n = s.unicode_len();
        let ghost start = self.inner@;
        let mut i: usize = 0;
        assert(s@.subrange(0, n as int) =~= s@);
        while i < n
            invariant
                n == s@.len(),
                i <= n,
                start + tabified(s@) == self.inner@ + tabified(s@.subrange(i as int, n as int)),
            decreases n - i,
        {
            let ghost rest = s@.subrange(i as int, n as int);
            if n - i >= 4 && s.get_char(i) == ' ' && s.get_char(i + 1) == ' ' && s.get_char(i + 2)
                == ' ' && s.get_char(i + 3) == ' ' {
                let ghost before = self.inner@;
                push_char(&mut self.inner, '\t');
                assert(rest.subrange(4, rest.len() as int) =~= s@.subrange(i + 4, n as int));
                assert(tabified(rest) == seq!['\t'] + tabified(rest.subrange(4, rest.len() as int)));
                assert(before + tabified(rest) =~= self.inner@ + tabified(s@.subrange(i + 4, n as int)));
                i = i + 4;
            } else {
                let c = s.get_char(i);
                let ghost before = self.inner@;
                push_char(&mut self.inner, c);
                assert(rest.drop_first() =~= s@.subrange(i + 1, n as int));
                assert(tabified(rest) == seq![c] + tabified(rest.drop_first()));
                assert(before + tabified(rest) =~= self.inner@ + tabified(s@.subrange(i + 1, n as int)));
                i = i + 1;
            }
        }
        assert(s@.subrange(n as int, n as int) =~= Seq::<char>::empty());
        assert(self.inner@ + Seq::<char>::empty() =~= self.inner@);
    }
}

} // verus!
