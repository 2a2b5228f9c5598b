//! A bounded history of the latest data points, newest first.
use crate::standardized_types::BaseDataEnum;
use std::collections::VecDeque;
use vstd::prelude::*;

verus! {

/// Keeps track of the last N data points.
/// When the window is full, adding a new data point removes the oldest one.
/// Data points are accessed by index, where 0 is the latest data point.
pub struct RollingWindow<T> {
    history: VecDeque<T>,
    number: usize,
}

/// The window after `data` is added to a window holding `history` with capacity `number`:
/// `data` goes to the front, and the oldest item leaves when the window was full.
pub open spec fn spec_window_add<T>(history: Seq<T>, number: nat, data: T) -> Seq<T> {
    if history.len() == number && history.len() > 0 {
        seq![data] + history.drop_last()
    } else {
        seq![data] + history
    }
}

/// The newest `number` items of `items` (which lists the oldest first), newest first.
pub open spec fn spec_latest<T>(items: Seq<T>, number: nat) -> Seq<T> {
    if items.len() <= number {
        items.reverse()
    } else {
        items.subrange(items.len() - number, items.len() as int).reverse()
    }
}

impl<T> View for RollingWindow<T> {
    type V = Seq<T>;

    closed spec fn view(&self) -> Seq<T> {
        self.history@
    }
}

impl<T> RollingWindow<T> {
    /// A window with a non-zero capacity never holds more than its capacity.
    #[verifier::type_invariant]
    spec fn within_capacity(self) -> bool {
        self.number > 0 ==> self.history@.len() <= self.number
    }

    /// The number of data points the window keeps.
    pub closed spec fn capacity(&self) -> nat {
        self.number as nat
    }

    /// An empty window that keeps the latest `number` data points.
    pub fn new(number: usize) -> (r: Self)
        ensures
            r@ == Seq::<T>::empty(),
            r.capacity() == number,
    {
        RollingWindow { history: VecDeque::with_capacity(number), number }
    }

    /// Adds `data` as the latest data point; when the window is full the oldest one is
    /// removed first.
    pub fn add(&mut self, data: T)
        ensures
            final(self)@ == spec_window_add(old(self)@, old(self).capacity(), data),
            final(self).capacity() == old(self).capacity(),
            final(self).capacity() > 0 ==> final(self)@.len() <= final(self).capacity(),
    {
        proof {
            use_type_invariant(&*self);
        }
        let mut history: VecDeque<T> = VecDeque::new();
        std::mem::swap(&mut history, &mut self.history);
        if history.len() == self.number {
            history.pop_back();
        }
        history.push_front(data);
        proof {
            if old(self)@.len() == old(self).capacity() && old(self)@.len() > 0 {
                assert(history@ =~= seq![data] + old(self)@.drop_last());
            } else {
                assert(history@ =~= seq![data] + old(self)@);
            }
        }
        self.history = history;
    }

    /// The latest data point, if any.
    pub fn last(&self) -> (r: Option<&T>)
        ensures
            r == (if self@.len() > 0 {
                Some(&self@[0])
            } else {
                None::<&T>
            }),
    {
        if self.history.len() > 0 {
            Some(&self.history[0])
        } else {
            None
        }
    }

    /// The data point `index` places back from the latest, if there is one.
    pub fn get(&self, index: usize) -> (r: Option<&T>)
        ensures
            r == (if index < self@.len() {
                Some(&self@[index as int])
            } else {
                None::<&T>
            }),
    {
        if index < self.history.len() {
            Some(&self.history[index])
        } else {
            None
        }
    }

    /// The number of data points held; never more than the capacity, when that is not zero.
    pub fn len(&self) -> (r: usize)
        ensures
            r == self@.len(),
            self.capacity() > 0 ==> r <= self.capacity(),
    {
        proof {
            use_type_invariant(self);
        }
        self.history.len()
    }

    /// Whether the window holds as many data points as it keeps.
    pub fn is_full(&self) -> (r: bool)
        ensures
            r == (self@.len() == self.capacity()),
    {
        self.history.len() == self.number
    }

    /// Removes every data point; the capacity stays.
    pub fn clear(&mut self)
        ensures
            final(self)@ == Seq::<T>::empty(),
            final(self).capacity() == old(self).capacity(),
    {
        let mut history: VecDeque<T> = VecDeque::new();
        std::mem::swap(&mut history, &mut self.history);
        history.clear();
        self.history = history;
    }

    /// All data points, latest first.
    pub fn history(&self) -> (r: &VecDeque<T>)
        ensures
            r@ == self@,
    {
        &self.history
    }

    /// The number of data points the window keeps.
    pub fn number(&self) -> (r: usize)
        ensures
            r == self.capacity(),
    {
        self.number
    }
}

impl RollingWindow<BaseDataEnum> {
    /// A copy of the window: the same data points in the same order, the same capacity.
    pub fn copy(&self) -> (r: Self)
        ensures
            r@ == self@,
            r.capacity() == self.capacity(),
    {
        let mut history: VecDeque<BaseDataEnum> = VecDeque::new();
        let n = self.history.len();
        let mut i: usize = 0;
        while i < n
            invariant
                n == self.history@.len(),
                i <= n,
                history@ =~= self.history@.subrange(0, i as int),
            decreases n - i,
        {
            history.push_back(self.history[i].copy());
            i = i + 1;
        }
        proof {
            use_type_invariant(self);
        }
        RollingWindow { history, number: self.number }
    }
}

/// Every data point of `history` is a bar marked closed.
pub open spec fn all_closed_bars(history: Seq<BaseDataEnum>) -> bool {
    forall|i: int| 0 <= i < history.len() ==> (#[trigger] history[i]).is_closed_bar()
}

/// Adding a closed bar to a history of closed bars leaves only closed bars.
pub proof fn lemma_add_keeps_closed(history: Seq<BaseDataEnum>, number: nat, data: BaseDataEnum)
    requires
        all_closed_bars(history),
        data.is_closed_bar(),
    ensures
        all_closed_bars(spec_window_add(history, number, data)),
{
    let next = spec_window_add(history, number, data);
    assert forall|i: int| 0 <= i < next.len() implies (#[trigger] next[i]).is_closed_bar() by {
        if i > 0 {
            assert(next[i] == history[i - 1]);
        }
    }
}

/// A window with a non-zero capacity never holds more than its capacity.
pub proof fn law_window_bounded<T>(history: Seq<T>, number: nat, data: T)
    requires
        number > 0,
        history.len() <= number,
    ensures
        spec_window_add(history, number, data).len() <= number,
{
}

/// The window holding `history` with capacity `number` after a run of operations in
/// order: `Some(x)` adds `x`, `None` clears the window.
pub open spec fn spec_window_run<T>(history: Seq<T>, number: nat, ops: Seq<Option<T>>) -> Seq<T>
    decreases ops.len(),
{
    if ops.len() == 0 {
        history
    } else {
        let next = match ops[0] {
            Some(x) => spec_window_add(history, number, x),
            None => Seq::<T>::empty(),
        };
        spec_window_run(next, number, ops.drop_first())
    }
}

/// A window of capacity `number > 0` that holds at most `number` items still does after
/// any run of adds and clears.
pub proof fn lemma_window_run_bounded<T>(history: Seq<T>, number: nat, ops: Seq<Option<T>>)
    requires
        number > 0,
        history.len() <= number,
    ensures
        spec_window_run(history, number, ops).len() <= number,
    decreases ops.len(),
{
    if ops.len() > 0 {
        let next = match ops[0] {
            Some(x) => spec_window_add(history, number, x),
            None => Seq::<T>::empty(),
        };
        lemma_window_run_bounded(next, number, ops.drop_first());
    }
}

/// A window made with `new(number)`, `number > 0`, holds at most `number` data points
/// after any run of `add` and `clear` calls.
pub proof fn law_window_run_bounded<T>(number: nat, ops: Seq<Option<T>>)
    requires
        number > 0,
    ensures
        spec_window_run(Seq::<T>::empty(), number, ops).len() <= number,
{
    lemma_window_run_bounded(Seq::<T>::empty(), number, ops);
}

/// The adds of `items`, in order, as a run of window operations.
pub open spec fn adds_of<T>(items: Seq<T>) -> Seq<Option<T>> {
    items.map_values(|x: T| Some(x))
}

/// From a window holding at most its capacity `number > 0`, adding `items` leaves as many
/// data points as were held and added, up to the capacity.
proof fn lemma_adds_length<T>(history: Seq<T>, number: nat, items: Seq<T>)
    requires
        number > 0,
        history.len() <= number,
    ensures
        spec_window_run(history, number, adds_of(items)).len() == (if history.len() + items.len()
            <= number {
            history.len() + items.len()
        } else {
            number
        }),
    decreases items.len(),
{
    if items.len() > 0 {
        let next = spec_window_add(history, number, items[0]);
        assert(adds_of(items)[0] == Some(items[0]));
        assert(adds_of(items).drop_first() =~= adds_of(items.drop_first()));
        lemma_adds_length(next, number, items.drop_first());
    }
}

/// A window of capacity `number > 0`, made empty, holds one more data point per add until
/// it is full: it is full after `k` adds exactly when `k >= number`, so it first becomes
/// full at the `number`-th add and stays full under further adds.
pub proof fn law_full_after_capacity_adds<T>(number: nat, items: Seq<T>)
    requires
        number > 0,
    ensures
        (spec_window_run(Seq::<T>::empty(), number, adds_of(items)).len() == number) <==> (
        items.len() >= number),
        items.len() < number ==> spec_window_run(Seq::<T>::empty(), number, adds_of(items)).len()
            == items.len(),
{
    lemma_adds_length(Seq::<T>::empty(), number, items);
}

/// What is added is what is read back first: after `add(x)`, `last()` and `get(0)` give `x`.
pub proof fn law_add_then_last<T>(history: Seq<T>, number: nat, data: T)
    ensures
        spec_window_add(history, number, data).len() > 0,
        spec_window_add(history, number, data)[0] == data,
{
}

/// Adding shifts every kept data point one place back: what `get(i)` gave before,
/// `get(i + 1)` gives after, for every point that is kept.
pub proof fn law_add_shifts<T>(history: Seq<T>, number: nat, data: T, i: int)
    requires
        0 <= i < history.len(),
        !(history.len() == number && i == history.len() - 1),
    ensures
        spec_window_add(history, number, data)[i + 1] == history[i],
{
}

/// A window of capacity `number > 0` filled by adding `items` in order holds the newest
/// `number` of them, newest first.
pub proof fn law_window_holds_latest<T>(items: Seq<T>, number: nat, data: T)
    requires
        number > 0,
    ensures
        spec_window_add(spec_latest(items, number), number, data) == spec_latest(
            items.push(data),
            number,
        ),
{
    let h = spec_latest(items, number);
    let n = items.len();
    if n < number {
        assert(spec_window_add(h, number, data) =~= spec_latest(items.push(data), number));
    } else {
        let tail = items.subrange(n - number, n as int);
        assert(h.len() == number);
        let new_tail = items.push(data).subrange(n + 1 - number, (n + 1) as int);
        assert(new_tail =~= tail.drop_first().push(data));
        if n == number {
            assert(tail =~= items);
        }
        assert(h =~= tail.reverse());
        assert(h.drop_last() =~= tail.drop_first().reverse());
        assert(spec_window_add(h, number, data) =~= new_tail.reverse());
    }
}

} // verus!
