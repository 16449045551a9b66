//! The records that the service stores, receives and sends.

use crate::text::clone_text;
use vstd::prelude::*;
use vstd::string::*;

verus! {

/// The body of a registration request.
#[derive(Clone, Debug, PartialEq, Eq)]
pub struct RegisterUserPayload {
    pub account_number: String,
    pub ifsc: String,
}

/// The body of a login request.
#[derive(Clone, Debug, PartialEq, Eq)]
pub struct LoginPayload {
    pub account_number: String,
    pub ifsc: String,
}

/// What the verification service tells about the branch of a routing code.
#[derive(Clone, Debug, PartialEq, Eq)]
pub struct BankApiData {
    pub bank_name: String,
    pub bank_branch_name: String,
    pub address: String,
    pub city_and_pincode: String,
    pub country_code: String,
    pub network_type: String,
    pub routing_no: String,
    pub state_code: String,
}

/// An identity as it is handed to the store: everything but the creation
/// time, which the store sets.
#[derive(Clone, Debug, PartialEq, Eq)]
pub struct NewUser {
    pub id: u128,
    pub account_number: String,
    pub ifsc_code: String,
    pub bank_name: String,
    pub branch: String,
    pub address: Option<String>,
    pub city: Option<String>,
    pub state_code: Option<String>,
    pub routing_no: Option<String>,
}

/// A registered identity. `id` is the 128-bit value of its UUID, and
/// `created_at` counts seconds since the Unix epoch.
#[derive(Clone, Debug, PartialEq, Eq)]
pub struct User {
    pub id: u128,
    pub account_number: String,
    pub ifsc_code: String,
    pub bank_name: String,
    pub branch: String,
    pub address: Option<String>,
    pub city: Option<String>,
    pub state_code: Option<String>,
    pub routing_no: Option<String>,
    pub created_at: i64,
}

/// The body of a successful login.
#[derive(Clone, Debug, PartialEq, Eq)]
pub struct LoginResponse {
    pub token: String,
}

/// The body of a successful registration.
#[derive(Clone, Debug, PartialEq, Eq)]
pub struct RegisterSuccessResponse {
    pub message: String,
    pub user_id: u128,
}

impl NewUser {
    /// The identity registered from an accepted payload and the data of its
    /// branch: the optional fields are all set.
    pub open spec fn assembled(id: u128, payload: RegisterUserPayload, bank: BankApiData) -> NewUser {
        NewUser {
            id,
            account_number: payload.account_number,
            ifsc_code: payload.ifsc,
            bank_name: bank.bank_name,
            branch: bank.bank_branch_name,
            address: Some(bank.address),
            city: Some(bank.city_and_pincode),
            state_code: Some(bank.state_code),
            routing_no: Some(bank.routing_no),
        }
    }

    /// Folds the branch data into the identity to be stored.
    pub fn assemble(id: u128, payload: RegisterUserPayload, bank: BankApiData) -> (user: NewUser)
        ensures
            user == NewUser::assembled(id, payload, bank),
    {
        NewUser {
            id,
            account_number: payload.account_number,
            ifsc_code: payload.ifsc,
            bank_name: bank.bank_name,
            branch: bank.bank_branch_name,
            address: Some(bank.address),
            city: Some(bank.city_and_pincode),
            state_code: Some(bank.state_code),
            routing_no: Some(bank.routing_no),
        }
    }

    /// The stored identity: this one, created at `created_at`.
    pub open spec fn stored(self, created_at: i64) -> User {
        User {
            id: self.id,
            account_number: self.account_number,
            ifsc_code: self.ifsc_code,
            bank_name: self.bank_name,
            branch: self.branch,
            address: self.address,
            city: self.city,
            state_code: self.state_code,
            routing_no: self.routing_no,
            created_at,
        }
    }

    /// The stored identity: this one, created at `created_at`.
    pub fn into_user(self, created_at: i64) -> (user: User)
        ensures
            user == self.stored(created_at),
    {
        User {
            id: self.id,
            account_number: self.account_number,
            ifsc_code: self.ifsc_code,
            bank_name: self.bank_name,
            branch: self.branch,
            address: self.address,
            city: self.city,
            state_code: self.state_code,
            routing_no: self.routing_no,
            created_at,
        }
    }

    /// A copy of the identity, field by field.
    pub fn duplicate(&self) -> (copy: NewUser)
        ensures
            copy == *self,
    {
        NewUser {
            id: self.id,
            account_number: self.account_number.clone(),
            ifsc_code: self.ifsc_code.clone(),
            bank_name: self.bank_name.clone(),
            branch: self.branch.clone(),
            address: clone_text(&self.address),
            city: clone_text(&self.city),
            state_code: clone_text(&self.state_code),
            routing_no: clone_text(&self.routing_no),
        }
    }
}

impl User {
    /// A copy of the identity, field by field.
    pub fn duplicate(&self) -> (copy: User)
        ensures
            copy == *self,
    {
        User {
            id: self.id,
            account_number: self.account_number.clone(),
            ifsc_code: self.ifsc_code.clone(),
            bank_name: self.bank_name.clone(),
            branch: self.branch.clone(),
            address: clone_text(&self.address),
            city: clone_text(&self.city),
            state_code: clone_text(&self.state_code),
            routing_no: clone_text(&self.routing_no),
            created_at: self.created_at,
        }
    }
}

impl RegisterSuccessResponse {
    /// The body that answers the registration of the identity `user_id`.
    pub fn new(user_id: u128) -> (response: RegisterSuccessResponse)
        ensures
            response.user_id == user_id,
            response.message@ == "User registered successfully."@,
    {
        RegisterSuccessResponse {
            message: String::from_str("User registered successfully."),
            user_id,
        }
    }
}

} // verus!
