//! The public-safe view of an identity.

use crate::model::User;
use crate::text::clone_text;
use vstd::prelude::*;
use vstd::string::*;

verus! {

/// The character that stands in for a hidden one.
pub const MASK_CHAR: char = '*';

/// `n` mask characters.
pub open spec fn mask_run(n: nat) -> Seq<char> {
    Seq::new(n, |i: int| MASK_CHAR)
}

/// The masked form of an account number: twelve mask characters and the last
/// four characters of the number where it has more than four, and four mask
/// characters otherwise.
pub open spec fn masked_account(account: Seq<char>) -> Seq<char> {
    if account.len() > 4 {
        mask_run(12) + account.subrange(account.len() - 4, account.len() as int)
    } else {
        mask_run(4)
    }
}

/// Masks an account number, showing only its last four characters.
pub fn mask_account_number(account_number: &str) -> (masked: String)
    ensures
        masked@ == masked_account(account_number@),
{
    let n: usize = account_number.unicode_len();
    if n > 4 {
        let tail = account_number.substring_char(n - 4, n);
        let mut masked = String::from_str("************");
        masked.append(tail);
        proof {
            reveal_strlit("************");
            assert("************"@ =~= mask_run(12));
        }
        masked
    } else {
        let masked = String::from_str("****");
        proof {
            reveal_strlit("****");
            assert("****"@ =~= mask_run(4));
        }
        masked
    }
}

/// The public view of an identity: the identity with its account number
/// masked.
#[derive(Clone, Debug, PartialEq, Eq)]
pub struct MaskedUserInfo {
    pub id: u128,
    pub masked_account_number: String,
    pub ifsc_code: String,
    pub bank_name: String,
    pub branch: String,
    pub address: Option<String>,
    pub city: Option<String>,
    pub state_code: Option<String>,
    pub routing_no: Option<String>,
    pub created_at: i64,
}

impl MaskedUserInfo {
    /// This is the public view of `user`: every field is the identity's,
    /// but for the account number, which is masked.
    pub open spec fn is_redaction_of(self, user: User) -> bool {
        &&& self.id == user.id
        &&& self.masked_account_number@ == masked_account(user.account_number@)
        &&& self.ifsc_code == user.ifsc_code
        &&& self.bank_name == user.bank_name
        &&& self.branch == user.branch
        &&& self.address == user.address
        &&& self.city == user.city
        &&& self.state_code == user.state_code
        &&& self.routing_no == user.routing_no
        &&& self.created_at == user.created_at
    }
}

/// The public view of an identity.
pub fn masked_user_info(user: &User) -> (info: MaskedUserInfo)
    ensures
        info.is_redaction_of(*user),
{
    MaskedUserInfo {
        id: user.id,
        masked_account_number: mask_account_number(user.account_number.as_str()),
        ifsc_code: user.ifsc_code.clone(),
        bank_name: user.bank_name.clone(),
        branch: user.branch.clone(),
        address: clone_text(&user.address),
        city: clone_text(&user.city),
        state_code: clone_text(&user.state_code),
        routing_no: clone_text(&user.routing_no),
        created_at: user.created_at,
    }
}

/// The masked form of an account number of at most four characters is four
/// mask characters. That of a longer one has sixteen characters: twelve
/// mask characters, then the last four of the number. So the masked form
/// does not tell the length of the number.
pub proof fn lemma_masked_form(account: Seq<char>)
    ensures
        account.len() <= 4 ==> masked_account(account) == mask_run(4),
        account.len() > 4 ==> {
            &&& masked_account(account).len() == 16
            &&& masked_account(account).subrange(0, 12) == mask_run(12)
            &&& masked_account(account).subrange(12, 16) == account.subrange(
                account.len() - 4,
                account.len() as int,
            )
        },
        forall|i: int| 0 <= i < 4 ==> #[trigger] mask_run(4)[i] == MASK_CHAR,
        forall|i: int| 0 <= i < 12 ==> #[trigger] mask_run(12)[i] == MASK_CHAR,
        mask_run(4).len() == 4,
{
}

} // verus!
