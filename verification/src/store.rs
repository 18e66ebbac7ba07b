//! The todo store: an ordered sequence of text items that only grows.
//!
//! Insertion order is display order. Items are not unique and there is no
//! bound on their number. The only mutation is [`TodoStore::append`], which
//! also hands back a snapshot of the whole sequence.

use vstd::prelude::*;

verus! {

/// The todo items, oldest first.
pub struct TodoStore {
    items: Vec<String>,
}

/// A copy of the store's sequence, taken at one moment. It cannot be changed.
#[derive(Debug)]
pub struct TodoListView {
    todos: Vec<String>,
}

impl View for TodoStore {
    type V = Seq<Seq<char>>;

    closed spec fn view(&self) -> Seq<Seq<char>> {
        self.items.deep_view()
    }
}

impl View for TodoListView {
    type V = Seq<Seq<char>>;

    closed spec fn view(&self) -> Seq<Seq<char>> {
        self.todos.deep_view()
    }
}

impl TodoStore {
    /// An empty store.
    pub fn new() -> (store: Self)
        ensures
            store@ == Seq::<Seq<char>>::empty(),
    {
        let store = TodoStore { items: Vec::new() };
        assert(store.items.deep_view() =~= Seq::<Seq<char>>::empty());
        store
    }

    /// Puts `item` at the end of the sequence and returns a snapshot of the
    /// sequence as it then stands, the new item last.
    pub fn append(&mut self, item: String) -> (view: TodoListView)
        ensures
            final(self)@ == old(self)@.push(item@),
            view@ == final(self)@,
    {
        let ghost before = self.items.deep_view();
        self.items.push(item);
        assert(self.items.deep_view() =~= before.push(item@));
        let todos = self.items.clone();
        assert(todos.deep_view() =~= self.items.deep_view());
        TodoListView { todos }
    }
}

impl TodoListView {
    /// The items of the snapshot, oldest first.
    pub fn items(&self) -> (items: &Vec<String>)
        ensures
            items.deep_view() == self@,
    {
        &self.todos
    }

    /// Gives up the snapshot for its items, oldest first.
    pub fn into_items(self) -> (items: Vec<String>)
        ensures
            items.deep_view() == self@,
    {
        self.todos
    }
}

/// The store after the calls of `schedule` have appended their items to
/// `store`, one call after the other, the first call first.
pub open spec fn append_all(store: Seq<Seq<char>>, schedule: Seq<Seq<char>>) -> Seq<Seq<char>>
    decreases schedule.len(),
{
    if schedule.len() == 0 {
        store
    } else {
        append_all(store.push(schedule.first()), schedule.drop_first())
    }
}

/// Whether `order` is a serialization of `calls` concurrent calls: it names
/// each call once, and `order[k]` is the call that takes the lock `k`-th.
pub open spec fn is_serialization(order: Seq<int>, calls: nat) -> bool {
    &&& order.len() == calls
    &&& forall|k: int| 0 <= k < order.len() ==> 0 <= #[trigger] order[k] < calls
    &&& order.no_duplicates()
}

/// The submitted items in the order in which their calls run.
pub open spec fn scheduled<A>(submitted: Seq<A>, order: Seq<int>) -> Seq<A> {
    Seq::new(order.len(), |k: int| submitted[order[k]])
}

/// Running the calls in another order changes where an item stands, and
/// nothing else: the same items are there, each as often as before.
pub proof fn lemma_schedule_keeps_items<A>(submitted: Seq<A>, order: Seq<int>)
    requires
        is_serialization(order, submitted.len()),
    ensures
        scheduled(submitted, order).to_multiset() == submitted.to_multiset(),
    decreases submitted.len(),
{
    let n = submitted.len() as int;
    let all = scheduled(submitted, order);
    if n == 0 {
        assert(all =~= submitted);
    } else {
        let last = order[n - 1];
        let rest = submitted.remove(last);
        let rest_order = Seq::new(
            (n - 1) as nat,
            |k: int|
                if order[k] < last {
                    order[k]
                } else {
                    order[k] - 1
                },
        );
        assert forall|k: int| 0 <= k < rest_order.len() implies 0 <= #[trigger] rest_order[k] < n
            - 1 by {
            assert(order[k] != order[n - 1]);
        }
        assert forall|a: int, b: int|
            0 <= a < rest_order.len() && 0 <= b < rest_order.len() && a != b implies rest_order[a]
            != rest_order[b] by {
            assert(order[a] != order[b]);
            assert(order[a] != order[n - 1]);
            assert(order[b] != order[n - 1]);
        }
        lemma_schedule_keeps_items(rest, rest_order);
        let rest_all = scheduled(rest, rest_order);
        assert forall|k: int| 0 <= k < n - 1 implies rest_all[k] == all[k] by {
            assert(order[k] != order[n - 1]);
        }
        assert(all =~= rest_all.push(submitted[last]));
        vstd::seq_lib::to_multiset_build(rest_all, submitted[last]);
        vstd::seq_lib::to_multiset_remove(submitted, last);
        vstd::seq_lib::to_multiset_contains(submitted, submitted[last]);
        assert(submitted.to_multiset().remove(submitted[last]).insert(submitted[last])
            =~= submitted.to_multiset());
    }
}

/// Appends that run one after another lose nothing and repeat nothing: the
/// store ends as what it held, then the items in the order of the calls.
pub proof fn law_appends_accumulate(store: Seq<Seq<char>>, schedule: Seq<Seq<char>>)
    ensures
        append_all(store, schedule) == store + schedule,
    decreases schedule.len(),
{
    if schedule.len() == 0 {
        assert(store + schedule =~= store);
    } else {
        law_appends_accumulate(store.push(schedule.first()), schedule.drop_first());
        assert(store.push(schedule.first()) + schedule.drop_first() =~= store + schedule);
    }
}

/// However the lock serializes `submitted.len()` concurrent appends to an
/// empty store, the store ends with that many items: the item of the call
/// that ran `k`-th stands at place `k`, and the items stored are exactly
/// the items submitted, each as often as it was submitted.
pub proof fn law_concurrent_appends_serialize(submitted: Seq<Seq<char>>, order: Seq<int>)
    requires
        is_serialization(order, submitted.len()),
    ensures
        ({
            let stored = append_all(Seq::empty(), scheduled(submitted, order));
            &&& stored.len() == submitted.len()
            &&& forall|k: int| 0 <= k < stored.len() ==> stored[k] == submitted[order[k]]
            &&& stored.to_multiset() == submitted.to_multiset()
        }),
{
    let schedule = scheduled(submitted, order);
    law_appends_accumulate(Seq::empty(), schedule);
    assert(Seq::<Seq<char>>::empty() + schedule =~= schedule);
    lemma_schedule_keeps_items(submitted, order);
}

} // verus!
