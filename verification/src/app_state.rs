use vstd::prelude::*;

verus! {

/// The process-wide context: the three store handles, constructed once
/// at startup and passed into the request orchestrators. The orchestrator
/// itself owns no persistent state.
pub struct AppState<U, B, T> {
    pub user_store: U,
    pub banned_token_store: B,
    pub two_fa_code_store: T,
}

impl<U, B, T> AppState<U, B, T> {
    pub fn new(user_store: U, banned_token_store: B, two_fa_code_store: T) -> (r: AppState<
        U,
        B,
        T,
    >)
        ensures
            r.user_store == user_store,
            r.banned_token_store == banned_token_store,
            r.two_fa_code_store == two_fa_code_store,
    {
        AppState { user_store, banned_token_store, two_fa_code_store }
    }
}

} // verus!
