//! The decisions of a change to a crate's owners: who may make it, which
//! logins may be added, and that a removal keeps an individual owner.

use vstd::prelude::*;
use vstd::string::StringExecFns;

verus! {

/// The logins to add to, or remove from, a crate's owners.
pub struct ChangeOwnersRequest {
    owners: Vec<String>,
}

impl View for ChangeOwnersRequest {
    type V = Seq<Seq<char>>;

    closed spec fn view(&self) -> Seq<Seq<char>> {
        self.owners@.map_values(|s: String| s@)
    }
}

impl ChangeOwnersRequest {
    /// A request naming `owners`, in the order given.
    pub fn new(owners: Vec<String>) -> (r: ChangeOwnersRequest)
        ensures
            r@ == owners@.map_values(|s: String| s@),
    {
        ChangeOwnersRequest { owners }
    }

    /// The logins of the request, in the order given.
    pub fn owners(&self) -> (r: &Vec<String>)
        ensures
            r@.map_values(|s: String| s@) == self@,
    {
        &self.owners
    }
}

/// What a user may do with a crate.
#[derive(Clone, Copy, Debug, PartialEq, Eq, Structural)]
pub enum Rights {
    NoRights,
    Publish,
    Full,
}

/// Why an owner change is refused.
#[derive(Clone, Debug, PartialEq, Eq)]
pub enum OwnerChangeError {
    /// The user may publish through a team but not change owners.
    TeamMemberNotPermitted,
    /// The user does not own the crate.
    NotAnOwner,
    /// The login `login`, to be added, already owns the crate.
    AlreadyOwner { login: String },
    /// The removal would leave the crate without an individual owner.
    NoIndividualOwnerLeft,
}

/// The text shown to the user for an owner-change error.
pub open spec fn owner_error_text(e: OwnerChangeError) -> Seq<char> {
    match e {
        OwnerChangeError::TeamMemberNotPermitted => "team members don't have permission to modify owners"@,
        OwnerChangeError::NotAnOwner => "only owners have permission to modify owners"@,
        OwnerChangeError::AlreadyOwner { login } => "`"@ + login@ + "` is already an owner"@,
        OwnerChangeError::NoIndividualOwnerLeft =>
            "cannot remove all individual owners of a crate. Team member don't have permission to modify owners, so at least one individual owner is required."@,
    }
}

impl OwnerChangeError {
    /// The text shown to the user, naming the login where there is one.
    pub fn message(&self) -> (r: String)
        ensures
            r@ == owner_error_text(*self),
    {
        match self {
            OwnerChangeError::TeamMemberNotPermitted => "team members don't have permission to modify owners".to_owned(),
            OwnerChangeError::NotAnOwner => "only owners have permission to modify owners".to_owned(),
            OwnerChangeError::AlreadyOwner { login } => {
                let mut m = "`".to_owned();
                m.append(login.as_str());
                m.append("` is already an owner");
                m
            },
            OwnerChangeError::NoIndividualOwnerLeft =>
                "cannot remove all individual owners of a crate. Team member don't have permission to modify owners, so at least one individual owner is required.".to_owned(),
        }
    }
}

/// The lower-case form of a login, as `str::to_lowercase` gives it.
pub uninterp spec fn lower_of(s: Seq<char>) -> Seq<char>;

/// Relies on `str::to_lowercase`: its result depends on the characters alone.
#[verifier::external_body]
fn lowercase(s: &str) -> (r: String)
    ensures
        r@ == lower_of(s@),
{
    s.to_lowercase()
}

/// Whether two logins name the same account, ignoring case.
pub open spec fn same_login_spec(a: Seq<char>, b: Seq<char>) -> bool {
    lower_of(a) == lower_of(b)
}

/// Whether some login of `owners` names the same account as `login`.
pub open spec fn is_owner_spec(owners: Seq<Seq<char>>, login: Seq<char>) -> bool {
    exists|i: int| 0 <= i < owners.len() && same_login_spec(#[trigger] owners[i], login)
}

/// Only a user with full rights may change a crate's owners.
pub fn check_rights(rights: Rights) -> (r: Result<(), OwnerChangeError>)
    ensures
        rights == Rights::Full ==> r is Ok,
        rights == Rights::Publish ==> r == Err::<(), OwnerChangeError>(
            OwnerChangeError::TeamMemberNotPermitted,
        ),
        rights == Rights::NoRights ==> r == Err::<(), OwnerChangeError>(OwnerChangeError::NotAnOwner),
{
    match rights {
        Rights::Full => Ok(()),
        Rights::Publish => Err(OwnerChangeError::TeamMemberNotPermitted),
        Rights::NoRights => Err(OwnerChangeError::NotAnOwner),
    }
}

/// Whether `a` and `b` name the same account, ignoring case.
pub fn same_login(a: &String, b: &String) -> (r: bool)
    ensures
        r == same_login_spec(a@, b@),
{
    let la = lowercase(a.as_str());
    let lb = lowercase(b.as_str());
    la == lb
}

/// Checks that `login` may be added to a crate whose owners have the logins
/// `owners`: it must not name one of them, ignoring case.
pub fn check_new_owner(owners: &Vec<String>, login: &String) -> (r: Result<(), OwnerChangeError>)
    ensures
        is_owner_spec(owners@.map_values(|s: String| s@), login@) ==> r == Err::<(), OwnerChangeError>(
            OwnerChangeError::AlreadyOwner { login: *login },
        ),
        !is_owner_spec(owners@.map_values(|s: String| s@), login@) ==> r is Ok,
{
    let ghost view = owners@.map_values(|s: String| s@);
    let mut i: usize = 0;
    while i < owners.len()
        invariant
            i <= owners.len(),
            view == owners@.map_values(|s: String| s@),
            forall|j: int| 0 <= j < i ==> !same_login_spec(#[trigger] view[j], login@),
        decreases owners.len() - i,
    {
        if same_login(&owners[i], login) {
            assert(same_login_spec(view[i as int], login@));
            return Err(OwnerChangeError::AlreadyOwner { login: login.clone() });
        }
        i = i + 1;
    }
    Ok(())
}

/// Checks that every login of `logins` may be added to a crate whose owners
/// have the logins `owners`. The error names the first login, in list order,
/// that already owns the crate, ignoring case.
pub fn check_new_owners(owners: &Vec<String>, logins: &Vec<String>) -> (r: Result<(), OwnerChangeError>)
    ensures
        r is Ok <==> forall|k: int|
            0 <= k < logins.len() ==> !is_owner_spec(
                owners@.map_values(|s: String| s@),
                (#[trigger] logins@[k])@,
            ),
        r is Err ==> exists|k: int|
            0 <= k < logins.len() && r == Err::<(), OwnerChangeError>(
                OwnerChangeError::AlreadyOwner { login: #[trigger] logins@[k] },
            ) && is_owner_spec(owners@.map_values(|s: String| s@), logins@[k]@) && forall|j: int|
                0 <= j < k ==> !is_owner_spec(
                    owners@.map_values(|s: String| s@),
                    (#[trigger] logins@[j])@,
                ),
{
    let mut i: usize = 0;
    while i < logins.len()
        invariant
            i <= logins.len(),
            forall|j: int|
                0 <= j < i ==> !is_owner_spec(
                    owners@.map_values(|s: String| s@),
                    (#[trigger] logins@[j])@,
                ),
        decreases logins.len() - i,
    {
        let c = check_new_owner(owners, &logins[i]);
        if c.is_err() {
            assert(is_owner_spec(owners@.map_values(|s: String| s@), logins@[i as int]@));
            return c;
        }
        i = i + 1;
    }
    Ok(())
}

/// Checks, after a removal, that `individual_owners` individual owners keep
/// the crate in hand: at least one must remain.
pub fn check_removal(individual_owners: usize) -> (r: Result<(), OwnerChangeError>)
    ensures
        individual_owners == 0 ==> r == Err::<(), OwnerChangeError>(
            OwnerChangeError::NoIndividualOwnerLeft,
        ),
        individual_owners > 0 ==> r is Ok,
{
    if individual_owners == 0 {
        Err(OwnerChangeError::NoIndividualOwnerLeft)
    } else {
        Ok(())
    }
}

} // verus!
