//! A peekable input stream with transactional lookahead, over characters.
//!
//! This is the stream-shaped face of the same idea the combinators build on:
//! all the state a parse holds is one cursor, so lookahead-then-commit is a
//! cheap snapshot of an index — keep the advance, or discard it by putting
//! the old index back.  No undo log is needed because nothing besides the
//! cursor changes during an attempt.

use vstd::prelude::*;
use vstd::string::StrSliceExecFns;

verus! {

/// A stream of items with a rewindable cursor.
pub trait InputStream<T> {
    /// The items the stream ranges over.
    spec fn stream(&self) -> Seq<T>;

    /// How many items have been taken.
    spec fn cursor(&self) -> int;

    /// The next item, if any, without advancing.
    fn peek(&self) -> (r: Option<T>)
        ensures
            r == (if 0 <= self.cursor() < self.stream().len() {
                Some(self.stream()[self.cursor()])
            } else {
                None::<T>
            }),
    ;

    /// The next item, if any, advancing past it.
    fn next(&mut self) -> (r: Option<T>)
        ensures
            final(self).stream() == old(self).stream(),
            r == (if 0 <= old(self).cursor() < old(self).stream().len() {
                Some(old(self).stream()[old(self).cursor()])
            } else {
                None::<T>
            }),
            r is Some ==> final(self).cursor() == old(self).cursor() + 1,
            r is None ==> final(self).cursor() == old(self).cursor(),
    ;
}

/// A character stream over an ASCII string.
pub struct CharStream {
    string: String,
    idx: usize,
}

impl CharStream {
    /// A stream at the start of `string`, which must be ASCII.
    pub fn new(string: String) -> (r: CharStream)
        requires
            string.is_ascii(),
        ensures
            r.stream() == string@,
            r.cursor() == 0,
    {
        CharStream { string, idx: 0 }
    }

    /// Runs a speculative read: the closure takes the stream, advances it as
    /// it pleases, and says with its second result whether to keep the
    /// advance.  On `false` the cursor is put back where it was — the
    /// stream's contents stay whatever the closure left.
    pub fn optional_next<F: FnOnce(CharStream) -> (CharStream, bool)>(&mut self, closure: F)
        requires
            call_requires(closure, (*old(self),)),
        ensures
            exists|res: (CharStream, bool)|
                {
                    &&& #[trigger] call_ensures(closure, (*old(self),), res)
                    &&& res.1 ==> final(self).stream() == res.0.stream() && final(self).cursor()
                        == res.0.cursor()
                    &&& !res.1 ==> final(self).stream() == res.0.stream() && final(self).cursor()
                        == old(self).cursor()
                },
    {
        let oldidx = self.idx;
        let mut taken = CharStream { string: String::new(), idx: 0 };
        core::mem::swap(self, &mut taken);
        let (s2, b) = closure(taken);
        if b {
            *self = s2;
        } else {
            *self = CharStream { string: s2.string, idx: oldidx };
        }
    }
}

impl InputStream<char> for CharStream {
    closed spec fn stream(&self) -> Seq<char> {
        self.string@
    }

    closed spec fn cursor(&self) -> int {
        self.idx as int
    }

    fn peek(&self) -> (r: Option<char>) {
        if self.idx < self.string.as_str().unicode_len() {
            Some(self.string.as_str().get_char(self.idx))
        } else {
            None
        }
    }

    fn next(&mut self) -> (r: Option<char>) {
        let n = self.string.as_str().unicode_len();
        if self.idx < n {
            let c = self.string.as_str().get_char(self.idx);
            self.idx = self.idx + 1;
            Some(c)
        } else {
            None
        }
    }
}

} // verus!
