use vstd::prelude::*;

verus! {

/// What the front end knows about the signed-in user: the session token, once there is one.
#[derive(Clone)]
pub struct UserState {
    pub token: Option<String>,
}

/// The two things that can happen to the user state.
pub enum UserAction {
    SetToken(String),
    ClearToken,
}

impl View for UserState {
    type V = Option<Seq<char>>;

    open spec fn view(&self) -> Option<Seq<char>> {
        match self.token {
            Some(t) => Some(t@),
            None => None,
        }
    }
}

/// The token that the state holds after `action`, whatever it held before.
pub open spec fn token_after(action: UserAction) -> Option<Seq<char>> {
    match action {
        UserAction::SetToken(t) => Some(t@),
        UserAction::ClearToken => None,
    }
}

/// The reducer over the state's view.
pub open spec fn spec_reduce(state: Option<Seq<char>>, action: UserAction) -> Option<Seq<char>> {
    token_after(action)
}

impl UserState {
    /// Applies an action: `SetToken` stores the token, `ClearToken` forgets it.
    pub fn reduce(self, action: UserAction) -> (next: UserState)
        ensures
            next@ == spec_reduce(self@, action),
            action matches UserAction::SetToken(t) ==> next@ == Some(t@),
            action is ClearToken ==> next@ is None,
    {
        match action {
            UserAction::SetToken(token) => UserState { token: Some(token) },
            UserAction::ClearToken => UserState { token: None },
        }
    }

    /// Whether the user still has to sign in: no token is held.
    pub fn needs_sign_in(&self) -> (res: bool)
        ensures
            res == (self@ is None),
    {
        self.token.is_none()
    }
}

impl Default for UserState {
    /// The state before anyone signs in: no token.
    fn default() -> (state: Self)
        ensures
            state@ == None::<Seq<char>>,
    {
        UserState { token: None }
    }
}

impl PartialEq for UserState {
    fn eq(&self, other: &Self) -> (res: bool) {
        match (&self.token, &other.token) {
            (Some(a), Some(b)) => String::eq(a, b),
            (None, None) => true,
            _ => false,
        }
    }
}

impl vstd::std_specs::cmp::PartialEqSpecImpl for UserState {
    open spec fn obeys_eq_spec() -> bool {
        true
    }

    open spec fn eq_spec(&self, other: &Self) -> bool {
        self@ == other@
    }
}

/// Reducing forgets the state it started from: two states given the same action end up
/// holding the same token.
pub proof fn law_reduce_forgets_previous_state(
    first: Option<Seq<char>>,
    second: Option<Seq<char>>,
    action: UserAction,
)
    ensures
        spec_reduce(first, action) == spec_reduce(second, action),
{
}

/// Applying the same action twice has the effect of applying it once.
pub proof fn law_reduce_idempotent(state: Option<Seq<char>>, action: UserAction)
    ensures
        spec_reduce(spec_reduce(state, action), action) == spec_reduce(state, action),
{
}

/// Signing in stores exactly the token given, and clearing afterwards returns to the
/// signed-out state that `default` starts in.
pub proof fn law_sign_in_then_out(state: Option<Seq<char>>, token: String)
    ensures
        spec_reduce(state, UserAction::SetToken(token)) == Some(token@),
        spec_reduce(spec_reduce(state, UserAction::SetToken(token)), UserAction::ClearToken)
            == None::<Seq<char>>,
{
}

} // verus!
