//! The session state: which user, if any, is signed in. The state is an
//! explicit value that the caller owns and passes in; the library keeps no
//! session of its own.

use vstd::prelude::*;
use vstd::string::*;

verus! {

/// The identifier of the user who is signed in, or nothing.
#[derive(Debug)]
pub struct UserState(pub Option<String>);

impl View for UserState {
    type V = Option<Seq<char>>;

    open spec fn view(&self) -> Option<Seq<char>> {
        match self.0 {
            Some(user_id) => Some(user_id@),
            None => None,
        }
    }
}

impl Default for UserState {
    /// The state in which nobody is signed in.
    fn default() -> (state: UserState)
        ensures
            state@ is None,
    {
        UserState(None)
    }
}

/// The mathematical value of an optional identifier.
pub open spec fn optional_id(user_id: Option<String>) -> Option<Seq<char>> {
    match user_id {
        Some(id) => Some(id@),
        None => None,
    }
}

/// Who is let through where a signed-in user is asked for.
pub open spec fn authenticated(state: Option<Seq<char>>) -> Result<Seq<char>, Seq<char>> {
    match state {
        Some(user_id) => Ok(user_id),
        None => Err("Not authenticated"@),
    }
}

/// Whether a caller is let through where nobody may be signed in.
pub open spec fn unauthenticated(state: Option<Seq<char>>) -> Result<(), Seq<char>> {
    match state {
        Some(_) => Err("Already authenticated"@),
        None => Ok(()),
    }
}

/// The mathematical value of the answer to a request that needs a user.
pub open spec fn entry_outcome(result: Result<String, String>) -> Result<Seq<char>, Seq<char>> {
    match result {
        Ok(user_id) => Ok(user_id@),
        Err(why) => Err(why@),
    }
}

/// The mathematical value of the answer to a request that needs no user.
pub open spec fn unit_outcome(result: Result<(), String>) -> Result<(), Seq<char>> {
    match result {
        Ok(()) => Ok(()),
        Err(why) => Err(why@),
    }
}

/// Signs the given user in, in place of whoever was signed in before.
pub fn set_current_user(state: &mut UserState, user_id: String)
    ensures
        final(state)@ == Some(user_id@),
{
    state.0 = Some(user_id);
}

/// The user who is signed in, if any. The state is left as it is.
pub fn get_current_user(state: &UserState) -> (user_id: Option<String>)
    ensures
        optional_id(user_id) == state@,
{
    match &state.0 {
        Some(user_id) => Some(user_id.clone()),
        None => None,
    }
}

/// Signs out whoever is signed in.
pub fn clear_current_user(state: &mut UserState)
    ensures
        final(state)@ is None,
{
    state.0 = None;
}

/// Lets through only where a user is signed in, and says who.
pub fn require_authentication(state: &UserState) -> (result: Result<String, String>)
    ensures
        entry_outcome(result) == authenticated(state@),
{
    match get_current_user(state) {
        Some(user_id) => Ok(user_id),
        None => Err(String::from_str("Not authenticated")),
    }
}

/// Lets through only where nobody is signed in.
pub fn require_no_authentication(state: &UserState) -> (result: Result<(), String>)
    ensures
        unit_outcome(result) == unauthenticated(state@),
{
    match get_current_user(state) {
        Some(_) => Err(String::from_str("Already authenticated")),
        None => Ok(()),
    }
}

} // verus!
