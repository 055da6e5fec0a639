//! The decisions of a trash lookup: who the caller is, whether they belong to
//! the namespace, and only then which conversations lie in its trash.
//!
//! The lookup talks to outside services three times. It is a state machine:
//! each step takes the answer to the last request and says what to do next,
//! and whoever runs it performs the request and feeds the answer back.
use vstd::prelude::*;

verus! {

/// Where a trash lookup for a namespace stands.
pub enum FindTrash<N> {
    /// Waiting for the user behind the caller.
    AwaitingUser { namespace_id: N },
    /// Waiting for the check that the user belongs to the namespace.
    AwaitingMembership { namespace_id: N },
    /// Waiting for the conversations in the namespace's trash.
    AwaitingConversations,
    /// The reply has been given.
    Finished,
}

/// An answer from the outside services.
pub enum TrashEvent<U, C, E> {
    /// The user behind the caller, or why there is none.
    CurrentUser(Result<U, E>),
    /// Whether the user belongs to the namespace.
    Membership(Result<(), E>),
    /// The conversations in the namespace's trash.
    Conversations(Result<Vec<C>, E>),
}

/// What the lookup asks for next.
pub enum TrashAction<U, N, C, E> {
    /// Find the user behind the caller.
    ResolveCurrentUser,
    /// Check that `user` belongs to the namespace.
    CheckMembership { user: U, namespace_id: N },
    /// Fetch the conversations in the namespace's trash.
    FindTrashed { namespace_id: N },
    /// Give this reply; the lookup is over.
    Reply(Result<Vec<C>, E>),
}

impl<N: Copy> FindTrash<N> {
    /// Whether the lookup waits for an answer of the kind of `event`.
    pub open spec fn awaits<U, C, E>(&self, event: &TrashEvent<U, C, E>) -> bool {
        match (self, event) {
            (FindTrash::AwaitingUser { .. }, TrashEvent::CurrentUser(_)) => true,
            (FindTrash::AwaitingMembership { .. }, TrashEvent::Membership(_)) => true,
            (FindTrash::AwaitingConversations, TrashEvent::Conversations(_)) => true,
            _ => false,
        }
    }

    /// Whether the lookup waits for an answer of the kind of `event`.
    pub fn accepts<U, C, E>(&self, event: &TrashEvent<U, C, E>) -> (r: bool)
        ensures
            r == self.awaits(event),
    {
        match (self, event) {
            (FindTrash::AwaitingUser { .. }, TrashEvent::CurrentUser(_)) => true,
            (FindTrash::AwaitingMembership { .. }, TrashEvent::Membership(_)) => true,
            (FindTrash::AwaitingConversations, TrashEvent::Conversations(_)) => true,
            _ => false,
        }
    }

    /// The lookup's next state and request after `event`. An error ends the
    /// lookup with that very error; a user leads to the membership check for
    /// that user and namespace; a confirmed membership leads to the trash of
    /// that namespace; the conversations, or the error in fetching them, are
    /// the reply.
    pub open spec fn spec_step<U, C, E>(self, event: TrashEvent<U, C, E>) -> (
        FindTrash<N>,
        TrashAction<U, N, C, E>,
    ) {
        match (self, event) {
            (FindTrash::AwaitingUser { namespace_id }, TrashEvent::CurrentUser(Ok(user))) => (
                FindTrash::AwaitingMembership { namespace_id },
                TrashAction::CheckMembership { user, namespace_id },
            ),
            (FindTrash::AwaitingUser { .. }, TrashEvent::CurrentUser(Err(e))) => (
                FindTrash::Finished,
                TrashAction::Reply(Err(e)),
            ),
            (FindTrash::AwaitingMembership { namespace_id }, TrashEvent::Membership(Ok(()))) => (
                FindTrash::AwaitingConversations,
                TrashAction::FindTrashed { namespace_id },
            ),
            (FindTrash::AwaitingMembership { .. }, TrashEvent::Membership(Err(e))) => (
                FindTrash::Finished,
                TrashAction::Reply(Err(e)),
            ),
            (FindTrash::AwaitingConversations, TrashEvent::Conversations(found)) => (
                FindTrash::Finished,
                TrashAction::Reply(found),
            ),
            (state, _) => (state, TrashAction::ResolveCurrentUser),
        }
    }

    /// Starts a lookup of the trash of `namespace_id`: first, find the user.
    pub fn new<U, C, E>(namespace_id: N) -> (r: (FindTrash<N>, TrashAction<U, N, C, E>))
        ensures
            r.0 == (FindTrash::AwaitingUser { namespace_id }),
            r.1 == TrashAction::<U, N, C, E>::ResolveCurrentUser,
    {
        (FindTrash::AwaitingUser { namespace_id }, TrashAction::ResolveCurrentUser)
    }

    /// Takes the answer to the last request; gives the next state and request.
    pub fn step<U, C, E>(self, event: TrashEvent<U, C, E>) -> (r: (
        FindTrash<N>,
        TrashAction<U, N, C, E>,
    ))
        requires
            self.awaits(&event),
        ensures
            r == self.spec_step(event),
    {
        match self {
            FindTrash::AwaitingUser { namespace_id } => match event {
                TrashEvent::CurrentUser(Ok(user)) => (
                    FindTrash::AwaitingMembership { namespace_id },
                    TrashAction::CheckMembership { user, namespace_id },
                ),
                TrashEvent::CurrentUser(Err(e)) => (FindTrash::Finished, TrashAction::Reply(Err(e))),
                _ => (self, TrashAction::ResolveCurrentUser),
            },
            FindTrash::AwaitingMembership { namespace_id } => match event {
                TrashEvent::Membership(Ok(())) => (
                    FindTrash::AwaitingConversations,
                    TrashAction::FindTrashed { namespace_id },
                ),
                TrashEvent::Membership(Err(e)) => (FindTrash::Finished, TrashAction::Reply(Err(e))),
                _ => (self, TrashAction::ResolveCurrentUser),
            },
            FindTrash::AwaitingConversations => match event {
                TrashEvent::Conversations(found) => (FindTrash::Finished, TrashAction::Reply(found)),
                _ => (self, TrashAction::ResolveCurrentUser),
            },
            FindTrash::Finished => (self, TrashAction::ResolveCurrentUser),
        }
    }
}

/// The requests that a lookup in `state` makes when the answers are `events`,
/// one request per answer.
pub open spec fn spec_run<N: Copy, U, C, E>(state: FindTrash<N>, events: Seq<TrashEvent<U, C, E>>) -> Seq<
    TrashAction<U, N, C, E>,
>
    decreases events.len(),
{
    if events.len() == 0 {
        seq![]
    } else {
        let (next, action) = state.spec_step(events[0]);
        seq![action] + spec_run(next, events.drop_first())
    }
}

/// Whether a lookup in `state` awaits each of `events` in turn.
pub open spec fn awaits_all<N: Copy, U, C, E>(state: FindTrash<N>, events: Seq<TrashEvent<U, C, E>>) -> bool
    decreases events.len(),
{
    events.len() == 0 || (state.awaits(&events[0]) && awaits_all(
        state.spec_step(events[0]).0,
        events.drop_first(),
    ))
}

/// The reply that a lookup owes for `events`: the first error among the user
/// and the membership answers, else the answer about the conversations.
pub open spec fn owed_reply<U, C, E>(events: Seq<TrashEvent<U, C, E>>) -> Result<Vec<C>, E> {
    match events[0] {
        TrashEvent::CurrentUser(Err(e)) => Err(e),
        _ => match events[1] {
            TrashEvent::Membership(Err(e)) => Err(e),
            _ => match events[2] {
                TrashEvent::Conversations(found) => found,
                _ => arbitrary(),
            },
        },
    }
}

/// A lookup's trash is fetched only after the caller's user was found and
/// confirmed as a member, and only the trash of the namespace asked about;
/// the membership check was made for that user and namespace.
pub proof fn lemma_trash_fetched_only_for_members<N: Copy, U, C, E>(
    namespace_id: N,
    events: Seq<TrashEvent<U, C, E>>,
    i: int,
)
    requires
        awaits_all(FindTrash::AwaitingUser { namespace_id }, events),
        0 <= i < events.len(),
        spec_run(FindTrash::AwaitingUser { namespace_id }, events)[i] is FindTrashed,
    ensures
        i == 1,
        events[0] matches TrashEvent::CurrentUser(Ok(user)) && spec_run(
            FindTrash::AwaitingUser { namespace_id },
            events,
        )[0] == (TrashAction::<U, N, C, E>::CheckMembership { user, namespace_id }),
        events[1] == TrashEvent::<U, C, E>::Membership(Ok(())),
        spec_run(FindTrash::AwaitingUser { namespace_id }, events)[i] == (TrashAction::<
            U,
            N,
            C,
            E,
        >::FindTrashed { namespace_id }),
{
    reveal_with_fuel(spec_run, 5);
    reveal_with_fuel(awaits_all, 5);
    lemma_lookup_shape(namespace_id, events);
    if let TrashEvent::Membership(Ok(confirmed)) = events[1] {
        assert(confirmed == ());
    }
}

/// A lookup takes at most three answers; the last request it makes is the
/// reply, and no request before it is.
pub proof fn lemma_lookup_shape<N: Copy, U, C, E>(namespace_id: N, events: Seq<TrashEvent<U, C, E>>)
    requires
        awaits_all(FindTrash::AwaitingUser { namespace_id }, events),
    ensures
        events.len() <= 3,
        forall|i: int|
            0 <= i < events.len() - 1 ==> !(spec_run(
                FindTrash::AwaitingUser { namespace_id },
                events,
            )[i] is Reply),
{
    reveal_with_fuel(spec_run, 5);
    reveal_with_fuel(awaits_all, 5);
    if events.len() > 3 {
        let s1 = FindTrash::<N>::AwaitingUser { namespace_id }.spec_step(events[0]).0;
        let s2 = s1.spec_step(events[1]).0;
        let s3 = s2.spec_step(events[2]).0;
        assert(events.drop_first().drop_first().drop_first()[0] == events[3]);
        assert(s3 is Finished);
    }
}

/// When a lookup replies, it replies with the first error among the user and
/// the membership answers, else with the answer about the conversations.
pub proof fn lemma_lookup_reply<N: Copy, U, C, E>(
    namespace_id: N,
    events: Seq<TrashEvent<U, C, E>>,
    i: int,
)
    requires
        awaits_all(FindTrash::AwaitingUser { namespace_id }, events),
        0 <= i < events.len(),
        spec_run(FindTrash::AwaitingUser { namespace_id }, events)[i] is Reply,
    ensures
        i == events.len() - 1,
        spec_run(FindTrash::AwaitingUser { namespace_id }, events)[i] == TrashAction::<
            U,
            N,
            C,
            E,
        >::Reply(owed_reply(events)),
{
    reveal_with_fuel(spec_run, 5);
    reveal_with_fuel(awaits_all, 5);
    lemma_lookup_shape(namespace_id, events);
}

/// The state a lookup in `state` is in after the answers `events`.
pub open spec fn spec_state_after<N: Copy, U, C, E>(
    state: FindTrash<N>,
    events: Seq<TrashEvent<U, C, E>>,
) -> FindTrash<N>
    decreases events.len(),
{
    if events.len() == 0 {
        state
    } else {
        spec_state_after(state.spec_step(events[0]).0, events.drop_first())
    }
}

/// A lookup whose caller is unknown replies with the error about the caller
/// at once, and is over.
pub proof fn lemma_lookup_unknown_caller<N: Copy, U, C, E>(namespace_id: N, error: E)
    ensures
        ({
            let start = FindTrash::<N>::AwaitingUser { namespace_id };
            let events = seq![TrashEvent::<U, C, E>::CurrentUser(Err(error))];
            &&& awaits_all(start, events)
            &&& spec_run(start, events) == seq![TrashAction::<U, N, C, E>::Reply(Err(error))]
            &&& spec_state_after(start, events) is Finished
        }),
{
    let start = FindTrash::<N>::AwaitingUser { namespace_id };
    let events = seq![TrashEvent::<U, C, E>::CurrentUser(Err(error))];
    reveal_with_fuel(spec_run, 2);
    reveal_with_fuel(awaits_all, 2);
    reveal_with_fuel(spec_state_after, 2);
    assert(events.drop_first() =~= Seq::<TrashEvent<U, C, E>>::empty());
    assert(spec_run(start, events) =~= seq![TrashAction::<U, N, C, E>::Reply(Err(error))]);
}

/// A lookup for a user who is not a member of the namespace asks about that
/// user's membership of that namespace, then replies with the error, and never
/// fetches the trash.
pub proof fn lemma_lookup_non_member<N: Copy, U, C, E>(namespace_id: N, user: U, error: E)
    ensures
        ({
            let start = FindTrash::<N>::AwaitingUser { namespace_id };
            let events = seq![
                TrashEvent::<U, C, E>::CurrentUser(Ok(user)),
                TrashEvent::<U, C, E>::Membership(Err(error)),
            ];
            &&& awaits_all(start, events)
            &&& spec_run(start, events) == seq![
                TrashAction::<U, N, C, E>::CheckMembership { user, namespace_id },
                TrashAction::<U, N, C, E>::Reply(Err(error)),
            ]
            &&& spec_state_after(start, events) is Finished
        }),
{
    let start = FindTrash::<N>::AwaitingUser { namespace_id };
    let events = seq![
        TrashEvent::<U, C, E>::CurrentUser(Ok(user)),
        TrashEvent::<U, C, E>::Membership(Err(error)),
    ];
    reveal_with_fuel(spec_run, 3);
    reveal_with_fuel(awaits_all, 3);
    reveal_with_fuel(spec_state_after, 3);
    assert(events.drop_first() =~= seq![TrashEvent::<U, C, E>::Membership(Err(error))]);
    assert(events.drop_first().drop_first() =~= Seq::<TrashEvent<U, C, E>>::empty());
    assert(spec_run(start, events) =~= seq![
        TrashAction::<U, N, C, E>::CheckMembership { user, namespace_id },
        TrashAction::<U, N, C, E>::Reply(Err(error)),
    ]);
}

/// A lookup for a member asks about that user's membership of that
/// namespace, then for that namespace's trash, then replies with exactly what
/// was found there (an empty trash included) or the error in finding it, and
/// is over.
pub proof fn lemma_lookup_for_a_member<N: Copy, U, C, E>(
    namespace_id: N,
    user: U,
    found: Result<Vec<C>, E>,
)
    ensures
        ({
            let start = FindTrash::<N>::AwaitingUser { namespace_id };
            let events = seq![
                TrashEvent::<U, C, E>::CurrentUser(Ok(user)),
                TrashEvent::<U, C, E>::Membership(Ok(())),
                TrashEvent::<U, C, E>::Conversations(found),
            ];
            &&& awaits_all(start, events)
            &&& spec_run(start, events) == seq![
                TrashAction::<U, N, C, E>::CheckMembership { user, namespace_id },
                TrashAction::<U, N, C, E>::FindTrashed { namespace_id },
                TrashAction::<U, N, C, E>::Reply(found),
            ]
            &&& spec_state_after(start, events) is Finished
        }),
{
    let start = FindTrash::<N>::AwaitingUser { namespace_id };
    let events = seq![
        TrashEvent::<U, C, E>::CurrentUser(Ok(user)),
        TrashEvent::<U, C, E>::Membership(Ok(())),
        TrashEvent::<U, C, E>::Conversations(found),
    ];
    reveal_with_fuel(spec_run, 4);
    reveal_with_fuel(awaits_all, 4);
    reveal_with_fuel(spec_state_after, 4);
    assert(events.drop_first() =~= seq![
        TrashEvent::<U, C, E>::Membership(Ok(())),
        TrashEvent::<U, C, E>::Conversations(found),
    ]);
    assert(events.drop_first().drop_first() =~= seq![TrashEvent::<U, C, E>::Conversations(found)]);
    assert(events.drop_first().drop_first().drop_first() =~= Seq::<TrashEvent<U, C, E>>::empty());
    assert(spec_run(start, events) =~= seq![
        TrashAction::<U, N, C, E>::CheckMembership { user, namespace_id },
        TrashAction::<U, N, C, E>::FindTrashed { namespace_id },
        TrashAction::<U, N, C, E>::Reply(found),
    ]);
}

/// A lookup that has taken three answers has replied, with the reply it owes.
pub proof fn lemma_three_answers_end_in_reply<N: Copy, U, C, E>(
    namespace_id: N,
    events: Seq<TrashEvent<U, C, E>>,
)
    requires
        awaits_all(FindTrash::AwaitingUser { namespace_id }, events),
        events.len() == 3,
    ensures
        spec_run(FindTrash::AwaitingUser { namespace_id }, events)[2] == TrashAction::<
            U,
            N,
            C,
            E,
        >::Reply(owed_reply(events)),
{
    reveal_with_fuel(spec_run, 4);
    reveal_with_fuel(awaits_all, 4);
}

} // verus!
