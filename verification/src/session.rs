//! The session store: which sessions are live, and how identifiers are made.
//!
//! The store is a plain value with one owner. Where several workers share it,
//! each of its operations is called under one lock, so that every operation
//! is one step of the model given here.

use vstd::prelude::*;
use vstd::hash_map::StringHashMap;
use vstd::string::*;
use crate::decimal::{decimal, decimal_value, lemma_decimal_value, Counter};

verus! {

/// The identifier that every login gets from a store that draws identifiers
/// from no counter.
pub const FIXED_SESSION_ID: &'static str = "12345";

/// What the server keeps of one session.
pub struct Session {
    pub id: String,
}

/// A session, as specifications see it.
pub struct SessionView {
    pub id: Seq<char>,
}

impl View for Session {
    type V = SessionView;

    open spec fn view(&self) -> SessionView {
        SessionView { id: self.id@ }
    }
}

/// Where a store takes the identifier of a new session from.
pub enum IdSource {
    /// Every session gets `FIXED_SESSION_ID`.
    Fixed,
    /// The sessions get the numerals of 0, 1, 2 and so on; `issued` counts
    /// the identifiers given out so far.
    Sequential { issued: nat },
}

/// A session store, as specifications see it.
pub struct StoreView {
    /// The live sessions, by identifier.
    pub sessions: Map<Seq<char>, SessionView>,
    /// The source of identifiers.
    pub ids: IdSource,
}

impl StoreView {
    /// The identifier that the next session gets.
    pub open spec fn next_id(self) -> Seq<char> {
        match self.ids {
            IdSource::Fixed => FIXED_SESSION_ID@,
            IdSource::Sequential { issued } => decimal(issued),
        }
    }

    /// The live session that a cookie names, if it names one.
    pub open spec fn lookup(self, cookie: Option<Seq<char>>) -> Option<Seq<char>> {
        match cookie {
            Some(id) => if self.sessions.contains_key(id) {
                Some(id)
            } else {
                None
            },
            None => None,
        }
    }

    /// The store after a session was created under the next identifier. A
    /// live session of that identifier is replaced.
    pub open spec fn create(self) -> StoreView {
        StoreView {
            sessions: self.sessions.insert(self.next_id(), SessionView { id: self.next_id() }),
            ids: match self.ids {
                IdSource::Fixed => IdSource::Fixed,
                IdSource::Sequential { issued } => IdSource::Sequential { issued: issued + 1 },
            },
        }
    }

    /// The store after the session `id` was removed, if it was live.
    pub open spec fn remove(self, id: Seq<char>) -> StoreView {
        StoreView { sessions: self.sessions.remove(id), ids: self.ids }
    }

    /// What holds of every store: the live sessions are finitely many, each is
    /// kept under its own identifier, and a sequential source has given out
    /// every identifier that is live.
    pub open spec fn valid(self) -> bool {
        &&& self.sessions.dom().finite()
        &&& forall|id: Seq<char>| #[trigger]
            self.sessions.contains_key(id) ==> self.sessions[id].id == id
        &&& self.ids matches IdSource::Sequential { issued } ==> forall|id: Seq<char>| #[trigger]
            self.sessions.contains_key(id) ==> decimal_value(id) < issued && decimal(
                decimal_value(id),
            ) == id
    }
}

/// One change that a store can undergo.
pub enum StoreStep {
    /// A session is created under the next identifier.
    Create,
    /// The session of this identifier is removed.
    Remove(Seq<char>),
}

/// The store after one step.
pub open spec fn after_step(store: StoreView, step: StoreStep) -> StoreView {
    match step {
        StoreStep::Create => store.create(),
        StoreStep::Remove(id) => store.remove(id),
    }
}

/// The store after a run of steps, taken one after the other.
pub open spec fn after_steps(store: StoreView, steps: Seq<StoreStep>) -> StoreView
    decreases steps.len(),
{
    if steps.len() == 0 {
        store
    } else {
        after_step(after_steps(store, steps.drop_last()), steps.last())
    }
}

/// The store after `n` sessions were created, one after the other.
pub open spec fn after_creations(store: StoreView, n: nat) -> StoreView
    decreases n,
{
    if n == 0 {
        store
    } else {
        after_creations(store, (n - 1) as nat).create()
    }
}

/// The identifiers that `n` creations in a row give out, in order.
pub open spec fn created_ids(store: StoreView, n: nat) -> Seq<Seq<char>>
    decreases n,
{
    if n == 0 {
        Seq::empty()
    } else {
        created_ids(store, (n - 1) as nat).push(after_creations(store, (n - 1) as nat).next_id())
    }
}

/// Every step leaves a valid store valid.
pub proof fn law_step_keeps_validity(store: StoreView, step: StoreStep)
    requires
        store.valid(),
    ensures
        after_step(store, step).valid(),
{
    match step {
        StoreStep::Create => {
            if store.ids is Sequential {
                lemma_decimal_value(store.ids->issued);
            }
        },
        StoreStep::Remove(_) => {},
    }
}

/// No run of steps, in whatever order they are taken, leaves a valid store in
/// disorder.
pub proof fn law_runs_keep_validity(store: StoreView, steps: Seq<StoreStep>)
    requires
        store.valid(),
    ensures
        after_steps(store, steps).valid(),
    decreases steps.len(),
{
    if steps.len() > 0 {
        law_runs_keep_validity(store, steps.drop_last());
        law_step_keeps_validity(after_steps(store, steps.drop_last()), steps.last());
    }
}

/// A sequential source never gives out the identifier of a live session.
pub proof fn law_sequential_id_is_fresh(store: StoreView)
    requires
        store.valid(),
        store.ids is Sequential,
    ensures
        !store.sessions.contains_key(store.next_id()),
{
    lemma_decimal_value(store.ids->issued);
}

/// A cookie that carries the identifier of a session just created resolves to
/// that session.
pub proof fn law_created_session_is_live(store: StoreView)
    ensures
        store.create().lookup(Some(store.next_id())) == Some(store.next_id()),
{
}

/// A live session stays live, whatever else is created or removed, as long as
/// no step removes it.
pub proof fn law_session_lives_until_removed(
    store: StoreView,
    id: Seq<char>,
    steps: Seq<StoreStep>,
)
    requires
        store.sessions.contains_key(id),
        forall|i: int| 0 <= i < steps.len() ==> steps[i] != StoreStep::Remove(id),
    ensures
        after_steps(store, steps).lookup(Some(id)) == Some(id),
    decreases steps.len(),
{
    if steps.len() > 0 {
        law_session_lives_until_removed(store, id, steps.drop_last());
    }
}

/// Once a session is removed, a cookie that carries its identifier resolves
/// to nothing.
pub proof fn law_removed_session_is_gone(store: StoreView, id: Seq<char>)
    ensures
        store.remove(id).lookup(Some(id)) is None,
{
}

/// After any number of creations the live sessions are those that were live
/// before and one for each identifier given out, however often it was given
/// out. From an empty store, the number of live sessions is the number of
/// distinct identifiers given out.
pub proof fn law_one_session_for_each_identifier(store: StoreView, n: nat)
    requires
        store.valid(),
    ensures
        after_creations(store, n).valid(),
        after_creations(store, n).ids is Sequential == store.ids is Sequential,
        after_creations(store, n).sessions.dom() == store.sessions.dom().union(
            created_ids(store, n).to_set(),
        ),
        store.sessions.len() == 0 ==> after_creations(store, n).sessions.len() == created_ids(
            store,
            n,
        ).to_set().len(),
    decreases n,
{
    if n > 0 {
        let before = after_creations(store, (n - 1) as nat);
        law_one_session_for_each_identifier(store, (n - 1) as nat);
        law_step_keeps_validity(before, StoreStep::Create);
        created_ids(store, (n - 1) as nat).lemma_push_to_set_commute(before.next_id());
    }
    if store.sessions.len() == 0 {
        store.sessions.dom().lemma_len0_is_empty();
        assert(store.sessions.dom().union(created_ids(store, n).to_set()) =~= created_ids(
            store,
            n,
        ).to_set());
    }
}

/// With the fixed identifier, any number of logins leaves one session: each
/// login replaces the session of the login before it.
pub proof fn law_fixed_ids_collide(store: StoreView, n: nat)
    requires
        store.valid(),
        store.ids is Fixed,
        store.sessions.len() == 0,
        n > 0,
    ensures
        after_creations(store, n).sessions.len() == 1,
    decreases n,
{
    let before = after_creations(store, (n - 1) as nat);
    law_one_session_for_each_identifier(store, (n - 1) as nat);
    if n > 1 {
        law_fixed_ids_collide(store, (n - 1) as nat);
        assert(before.sessions.contains_key(FIXED_SESSION_ID@)) by {
            lemma_fixed_creation_is_live(store, (n - 1) as nat);
        }
    } else {
        store.sessions.dom().lemma_len0_is_empty();
    }
}

/// With the fixed identifier, the session of that identifier is live after
/// one login or more.
proof fn lemma_fixed_creation_is_live(store: StoreView, n: nat)
    requires
        store.ids is Fixed,
        n > 0,
    ensures
        after_creations(store, n).ids is Fixed,
        after_creations(store, n).sessions.contains_key(FIXED_SESSION_ID@),
    decreases n,
{
    if n > 1 {
        lemma_fixed_creation_is_live(store, (n - 1) as nat);
    } else {
        assert(after_creations(store, 0) == store);
    }
}

/// With sequential identifiers, as many sessions are live after `n` logins as
/// there were logins: no login takes the session of another.
pub proof fn law_sequential_ids_do_not_collide(store: StoreView, n: nat)
    requires
        store.valid(),
        store.ids is Sequential,
    ensures
        after_creations(store, n).sessions.len() == store.sessions.len() + n,
    decreases n,
{
    if n > 0 {
        let before = after_creations(store, (n - 1) as nat);
        law_sequential_ids_do_not_collide(store, (n - 1) as nat);
        law_one_session_for_each_identifier(store, (n - 1) as nat);
        law_sequential_id_is_fresh(before);
    }
}

/// The sessions that are live, and the source of new identifiers.
pub struct SessionStore {
    sessions: StringHashMap<Session>,
    counter: Option<Counter>,
}

impl View for SessionStore {
    type V = StoreView;

    closed spec fn view(&self) -> StoreView {
        StoreView {
            sessions: self.sessions@.map_values(|session: Session| session@),
            ids: match self.counter {
                Some(counter) => IdSource::Sequential { issued: counter.value() },
                None => IdSource::Fixed,
            },
        }
    }
}

impl SessionStore {
    /// The store's invariant.
    pub closed spec fn wf(&self) -> bool {
        &&& self@.valid()
        &&& self.counter matches Some(counter) ==> counter.wf()
    }

    /// A store in good order is valid, so that what holds of valid stores
    /// holds of it.
    pub proof fn law_wf_is_valid(&self)
        requires
            self.wf(),
        ensures
            self@.valid(),
    {
    }

    /// An empty store whose sessions all get `FIXED_SESSION_ID`, so that a
    /// login takes over the session of the login before it.
    pub fn new() -> (store: Self)
        ensures
            store.wf(),
            store@.sessions == Map::<Seq<char>, SessionView>::empty(),
            store@.ids == IdSource::Fixed,
    {
        let store = SessionStore { sessions: StringHashMap::new(), counter: None };
        proof {
            assert(store@.sessions =~= Map::<Seq<char>, SessionView>::empty());
        }
        store
    }

    /// An empty store whose sessions get the numerals of 0, 1, 2 and so on, so
    /// that no two sessions share an identifier. Such identifiers are easy to
    /// guess: they tell sessions apart and keep nothing secret.
    pub fn with_sequential_ids() -> (store: Self)
        ensures
            store.wf(),
            store@.sessions == Map::<Seq<char>, SessionView>::empty(),
            store@.ids == (IdSource::Sequential { issued: 0 }),
    {
        let store = SessionStore { sessions: StringHashMap::new(), counter: Some(Counter::new()) };
        proof {
            assert(store@.sessions =~= Map::<Seq<char>, SessionView>::empty());
        }
        store
    }

    /// The number of live sessions.
    pub fn len(&self) -> (n: usize)
        requires
            self.wf(),
        ensures
            n == self@.sessions.len(),
    {
        proof {
            assert(self@.sessions.dom() =~= self.sessions@.dom());
        }
        self.sessions.len()
    }

    /// Resolves a cookie: the identifier it holds, where that is the
    /// identifier of a live session. No cookie, or one that names no live
    /// session, resolves to nothing.
    pub fn lookup(&self, cookie: &Option<String>) -> (session_id: Option<String>)
        requires
            self.wf(),
        ensures
            session_id.deep_view() == self@.lookup(cookie.deep_view()),
            session_id is Some <==> cookie is Some && self@.sessions.contains_key(cookie->0@),
    {
        match cookie {
            Some(id) => {
                if self.sessions.contains_key(id.as_str()) {
                    Some(id.clone())
                } else {
                    None
                }
            },
            None => None,
        }
    }

    /// Creates a session under the next identifier and returns the identifier.
    pub fn create(&mut self) -> (id: String)
        requires
            old(self).wf(),
        ensures
            final(self).wf(),
            id@ == old(self)@.next_id(),
            final(self)@ == old(self)@.create(),
    {
        let id = match &mut self.counter {
            Some(counter) => {
                let id = counter.numeral();
                counter.increment();
                id
            },
            None => String::from_str(FIXED_SESSION_ID),
        };
        proof {
            if old(self)@.ids is Sequential {
                lemma_decimal_value(old(self)@.ids->issued);
            }
        }
        self.sessions.insert(id.clone(), Session { id: id.clone() });
        proof {
            assert(self@.sessions =~= old(self)@.create().sessions);
        }
        id
    }

    /// Removes the session `id`. Nothing changes where no such session is
    /// live.
    pub fn remove(&mut self, id: &str)
        requires
            old(self).wf(),
        ensures
            final(self).wf(),
            final(self)@ == old(self)@.remove(id@),
    {
        self.sessions.remove(id);
        proof {
            assert(self@.sessions =~= old(self)@.remove(id@).sessions);
        }
    }
}

/// Resolves the cookie of a request against the store: the identifier of the
/// live session that the cookie names, if it names one.
pub fn get_session_id(cookie: &Option<String>, session_store: &SessionStore) -> (session_id:
    Option<String>)
    requires
        session_store.wf(),
    ensures
        session_id.deep_view() == session_store@.lookup(cookie.deep_view()),
        session_id is Some <==> cookie is Some && session_store@.sessions.contains_key(
            cookie->0@,
        ),
{
    session_store.lookup(cookie)
}

} // verus!
