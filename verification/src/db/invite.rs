//! Invitations to register.
use vstd::prelude::*;

verus! {

/// A registration key, ready to be stored.
pub struct NewRegistrationKey {
    pub value: String,
    pub inviting_user_id: i32,
}

} // verus!
