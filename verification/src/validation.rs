//! Helpers on sequences: the single element of a sequence, and a pairing of
//! two sequences that reports a length mismatch.

use vstd::prelude::*;

verus! {

/// The element of a one-element sequence; `None` when there are zero or
/// several elements.
pub fn only_element<T>(items: Vec<T>) -> (r: Option<T>)
    ensures
        items@.len() == 1 ==> r == Some(items@[0]),
        items@.len() != 1 ==> r is None,
{
    let mut items = items;
    if items.len() == 1 {
        items.pop()
    } else {
        None
    }
}

/// The two sequences have different lengths.
#[derive(Clone, Copy, Debug, PartialEq, Eq, Structural)]
pub struct LengthMismatchError;

/// Pairs up two sequences element by element; once one side runs out before
/// the other it yields a single `LengthMismatchError` and then nothing.
pub struct LengthCheckingZipIterator<L, R> {
    pub lefts: Vec<L>,
    pub rights: Vec<R>,
    pub errored: bool,
}

/// Starts pairing up two sequences.
pub fn zip_exact<L, R>(lefts: Vec<L>, rights: Vec<R>) -> (r: LengthCheckingZipIterator<L, R>)
    ensures
        r.lefts@ == lefts@,
        r.rights@ == rights@,
        !r.errored,
{
    LengthCheckingZipIterator { lefts, rights, errored: false }
}

impl<L, R> LengthCheckingZipIterator<L, R> {
    /// The next pair, a length mismatch, or `None` at the end.
    pub fn next(&mut self) -> (r: Option<Result<(L, R), LengthMismatchError>>)
        ensures
            old(self).errored ==> r is None && *final(self) == *old(self),
            !old(self).errored && old(self).lefts@.len() == 0 && old(self).rights@.len() == 0
                ==> r is None && *final(self) == *old(self),
            !old(self).errored && old(self).lefts@.len() > 0 && old(self).rights@.len() > 0 ==> {
                &&& r == Some(
                    Ok::<(L, R), LengthMismatchError>((old(self).lefts@[0], old(self).rights@[0])),
                )
                &&& final(self).lefts@ == old(self).lefts@.drop_first()
                &&& final(self).rights@ == old(self).rights@.drop_first()
                &&& !final(self).errored
            },
            !old(self).errored && (old(self).lefts@.len() == 0) != (old(self).rights@.len() == 0)
                ==> {
                &&& r == Some(Err::<(L, R), LengthMismatchError>(LengthMismatchError))
                &&& final(self).errored
                &&& final(self).lefts@ == old(self).lefts@
                &&& final(self).rights@ == old(self).rights@
            },
    {
        if self.errored {
            return None;
        }
        let has_left = self.lefts.len() > 0;
        let has_right = self.rights.len() > 0;
        if !has_left && !has_right {
            None
        } else if has_left && has_right {
            let l = self.lefts.remove(0);
            let r = self.rights.remove(0);
            Some(Ok((l, r)))
        } else {
            self.errored = true;
            Some(Err(LengthMismatchError))
        }
    }

    /// All remaining items, in order.
    pub fn collect_all(self) -> (r: Vec<Result<(L, R), LengthMismatchError>>)
        ensures
            self.errored ==> r@.len() == 0,
            !self.errored ==> {
                let n = if self.lefts@.len() <= self.rights@.len() {
                    self.lefts@.len()
                } else {
                    self.rights@.len()
                };
                &&& r@.len() == if self.lefts@.len() == self.rights@.len() {
                    n
                } else {
                    n + 1
                }
                &&& forall|i: int|
                    0 <= i < n ==> #[trigger] r@[i] == Ok::<(L, R), LengthMismatchError>(
                        (self.lefts@[i], self.rights@[i]),
                    )
                &&& self.lefts@.len() != self.rights@.len() ==> r@[n as int] == Err::<
                    (L, R),
                    LengthMismatchError,
                >(LengthMismatchError)
            },
    {
        let mut it = self;
        let ghost l0 = it.lefts@;
        let ghost r0 = it.rights@;
        let ghost n: int = if l0.len() <= r0.len() {
            l0.len() as int
        } else {
            r0.len() as int
        };
        let mut out: Vec<Result<(L, R), LengthMismatchError>> = Vec::new();
        if it.errored {
            return out;
        }
        while it.lefts.len() > 0 && it.rights.len() > 0
            invariant
                !it.errored,
                0 <= out@.len() <= n,
                it.lefts@ == l0.skip(out@.len() as int),
                it.rights@ == r0.skip(out@.len() as int),
                n == if l0.len() <= r0.len() {
                    l0.len() as int
                } else {
                    r0.len() as int
                },
                forall|i: int|
                    0 <= i < out@.len() ==> #[trigger] out@[i] == Ok::<(L, R), LengthMismatchError>(
                        (l0[i], r0[i]),
                    ),
            decreases it.lefts@.len(),
        {
            let item = it.next();
            match item {
                Some(x) => {
                    out.push(x);
                },
                None => {},
            }
            assert(it.lefts@ =~= l0.skip(out@.len() as int));
            assert(it.rights@ =~= r0.skip(out@.len() as int));
        }
        if it.lefts.len() != it.rights.len() {
            let item = it.next();
            match item {
                Some(x) => {
                    out.push(x);
                },
                None => {},
            }
        }
        out
    }
}

/// Convenience methods on owned sequences.
pub trait IterExt<T>: Sized {
    /// The element of a one-element sequence, else `None`.
    fn only_element(self) -> Option<T>;
}

impl<T> IterExt<T> for Vec<T> {
    fn only_element(self) -> (r: Option<T>)
        ensures
            self@.len() == 1 ==> r == Some(self@[0]),
            self@.len() != 1 ==> r is None,
    {
        only_element(self)
    }
}

} // verus!
