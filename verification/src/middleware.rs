//! Access tiers, capabilities, and the guards that admit a request.

use vstd::prelude::*;
use vstd::std_specs::convert::FromSpecImpl;
use crate::jwt::{Bearer, INVALID_TOKEN, TOKEN_NOT_FOUND};
use crate::models::User;
use crate::reserr::ResErr;

verus! {

/// The refusal of a request that finds no user store.
pub const NO_STORE: &'static str = "cant use db";

/// The refusal of a request whose subject is not in the user store.
pub const NO_USER: &'static str = "cant get user";

/// The refusal of a request that only an administrator may make.
pub const MUST_BE_ADMIN: &'static str = "must be Admin";

/// The refusal of a request that only an administrator or an operator may
/// make.
pub const MUST_BE_ADMIN_OR_OP: &'static str = "must be Admin or Op";

/// The refusal of a request that takes the right to upload.
pub const CANT_UPLOAD: &'static str = "cant upload";

/// The refusal of a request that takes the right to download.
pub const CANT_DOWNLOAD: &'static str = "cant download";

/// The privilege of an account, from the most privileged down.
#[derive(Debug, Clone, Copy, PartialEq, Eq, Structural)]
pub enum AccessTier {
    Admin,
    Operator,
    Uploader,
    Downloader,
    /// Known to the store, with no privilege beyond that.
    LoggedIn,
}

impl AccessTier {
    /// The tier that a stored status code stands for.
    pub open spec fn of_status(status: u8) -> AccessTier {
        if status == 1 {
            AccessTier::Admin
        } else if status == 2 {
            AccessTier::Operator
        } else if status == 3 {
            AccessTier::Uploader
        } else if status == 4 {
            AccessTier::Downloader
        } else {
            AccessTier::LoggedIn
        }
    }

    /// The place of the tier in the order of privilege: 0 for the most
    /// privileged.
    pub open spec fn rank(self) -> nat {
        match self {
            AccessTier::Admin => 0,
            AccessTier::Operator => 1,
            AccessTier::Uploader => 2,
            AccessTier::Downloader => 3,
            AccessTier::LoggedIn => 4,
        }
    }

    /// The tier that a stored status code stands for: 1 to 4 for the
    /// four privileged tiers, any other code for none of them.
    pub fn from_status(status: u8) -> (tier: AccessTier)
        ensures
            tier == AccessTier::of_status(status),
    {
        match status {
            1 => AccessTier::Admin,
            2 => AccessTier::Operator,
            3 => AccessTier::Uploader,
            4 => AccessTier::Downloader,
            _ => AccessTier::LoggedIn,
        }
    }

    /// Whether `self` is strictly more privileged than `other`.
    pub fn outranks(self, other: AccessTier) -> (more: bool)
        ensures
            more == (self.rank() < other.rank()),
    {
        self.place() < other.place()
    }

    fn place(self) -> (n: u8)
        ensures
            n == self.rank(),
    {
        match self {
            AccessTier::Admin => 0,
            AccessTier::Operator => 1,
            AccessTier::Uploader => 2,
            AccessTier::Downloader => 3,
            AccessTier::LoggedIn => 4,
        }
    }
}

/// A named permission that a request may need.
#[derive(Debug, Clone, Copy, PartialEq, Eq, Structural)]
pub enum Capability {
    AuthenticatedOnly,
    AdminOnly,
    AdminOrOperator,
    CanUpload,
    CanDownload,
}

impl Capability {
    /// The tiers that hold the capability.
    pub open spec fn allowed(self) -> Set<AccessTier> {
        match self {
            Capability::AuthenticatedOnly => set![
                AccessTier::Admin,
                AccessTier::Operator,
                AccessTier::Uploader,
                AccessTier::Downloader,
                AccessTier::LoggedIn,
            ],
            Capability::AdminOnly => set![AccessTier::Admin],
            Capability::AdminOrOperator => set![AccessTier::Admin, AccessTier::Operator],
            Capability::CanUpload => set![
                AccessTier::Admin,
                AccessTier::Operator,
                AccessTier::Uploader,
            ],
            Capability::CanDownload => set![
                AccessTier::Admin,
                AccessTier::Operator,
                AccessTier::Uploader,
                AccessTier::Downloader,
            ],
        }
    }

    /// The words with which a request that lacks the capability is
    /// refused. `AuthenticatedOnly` is held by every account; the words
    /// given for it are those for an account that the store does not hold.
    pub open spec fn denial(self) -> &'static str {
        match self {
            Capability::AuthenticatedOnly => NO_USER,
            Capability::AdminOnly => MUST_BE_ADMIN,
            Capability::AdminOrOperator => MUST_BE_ADMIN_OR_OP,
            Capability::CanUpload => CANT_UPLOAD,
            Capability::CanDownload => CANT_DOWNLOAD,
        }
    }

    /// Whether an account of tier `tier` holds the capability.
    pub fn admits(self, tier: AccessTier) -> (held: bool)
        ensures
            held == self.allowed().contains(tier),
    {
        match self {
            Capability::AuthenticatedOnly => true,
            Capability::AdminOnly => matches!(tier, AccessTier::Admin),
            Capability::AdminOrOperator => matches!(tier, AccessTier::Admin | AccessTier::Operator),
            Capability::CanUpload => matches!(
                tier,
                AccessTier::Admin | AccessTier::Operator | AccessTier::Uploader
            ),
            Capability::CanDownload => !matches!(tier, AccessTier::LoggedIn),
        }
    }

    /// The words with which a request that lacks the capability is
    /// refused.
    pub fn refusal(self) -> (words: &'static str)
        ensures
            words == self.denial(),
    {
        match self {
            Capability::AuthenticatedOnly => NO_USER,
            Capability::AdminOnly => MUST_BE_ADMIN,
            Capability::AdminOrOperator => MUST_BE_ADMIN_OR_OP,
            Capability::CanUpload => CANT_UPLOAD,
            Capability::CanDownload => CANT_DOWNLOAD,
        }
    }
}

/// A capability that an account holds is held by every account of a more
/// privileged tier.
pub proof fn privilege_is_kept_upwards(capability: Capability, tier: AccessTier, above: AccessTier)
    requires
        capability.allowed().contains(tier),
        above.rank() < tier.rank(),
    ensures
        capability.allowed().contains(above),
{
}

/// Why a request is not let through a guard.
#[derive(Debug, Clone, Copy, PartialEq, Eq, Structural)]
pub enum AuthFailure {
    /// The request reached no user store.
    StoreMissing,
    /// The request carries no token.
    TokenMissing,
    /// The token of the request does not verify.
    TokenInvalid,
    /// The store holds no account under the id that the token asserts.
    SubjectNotFound,
    /// The tier of the account does not hold this capability.
    CapabilityDenied(Capability),
}

impl AuthFailure {
    /// The fixed words with which the request is refused.
    pub open spec fn words(self) -> &'static str {
        match self {
            AuthFailure::StoreMissing => NO_STORE,
            AuthFailure::TokenMissing => TOKEN_NOT_FOUND,
            AuthFailure::TokenInvalid => INVALID_TOKEN,
            AuthFailure::SubjectNotFound => NO_USER,
            AuthFailure::CapabilityDenied(capability) => capability.denial(),
        }
    }

    /// The refusal as the error that the request is answered with: bad
    /// client data, with the fixed words and nothing more.
    pub open spec fn response(self) -> ResErr {
        ResErr::BadClientData(self.words())
    }

    /// The fixed words with which the request is refused.
    pub fn message(self) -> (words: &'static str)
        ensures
            words == self.words(),
    {
        match self {
            AuthFailure::StoreMissing => NO_STORE,
            AuthFailure::TokenMissing => TOKEN_NOT_FOUND,
            AuthFailure::TokenInvalid => INVALID_TOKEN,
            AuthFailure::SubjectNotFound => NO_USER,
            AuthFailure::CapabilityDenied(capability) => capability.refusal(),
        }
    }

    /// The refusal as the error that the request is answered with.
    pub fn into_response(self) -> (error: ResErr)
        ensures
            error == self.response(),
    {
        ResErr::BadClientData(self.message())
    }
}

/// What a guard that asks for `capability` makes of a request: the
/// account that it is made for, or the refusal.
///
/// `store_found` says whether the request reached a user store, `bearer`
/// what became of its token, and `user` what the store holds under the id
/// that the token asserts. The first of these that fails decides; where
/// none does, the tier of the account must hold the capability.
pub open spec fn resolution(
    capability: Capability,
    store_found: bool,
    bearer: Bearer,
    user: Option<User>,
) -> Result<User, AuthFailure> {
    if !store_found {
        Err(AuthFailure::StoreMissing)
    } else {
        match (bearer, user) {
            (Bearer::Absent, _) => Err(AuthFailure::TokenMissing),
            (Bearer::Rejected, _) => Err(AuthFailure::TokenInvalid),
            (Bearer::Verified(_), None) => Err(AuthFailure::SubjectNotFound),
            (Bearer::Verified(_), Some(account)) => if capability.allowed().contains(
                AccessTier::of_status(account.status),
            ) {
                Ok(account)
            } else {
                Err(AuthFailure::CapabilityDenied(capability))
            },
        }
    }
}

/// Resolves a request to the account that it is made for, and lets it
/// through where that account's tier holds `capability`.
///
/// `user` is read only where the store was found and the token verified.
pub fn resolve(capability: Capability, store_found: bool, bearer: Bearer, user: Option<User>) -> (r:
    Result<User, AuthFailure>)
    ensures
        r == resolution(capability, store_found, bearer, user),
        r is Ok <==> store_found && bearer is Verified && user is Some
            && capability.allowed().contains(AccessTier::of_status(user->0.status)),
{
    if !store_found {
        return Err(AuthFailure::StoreMissing);
    }
    match bearer {
        Bearer::Absent => Err(AuthFailure::TokenMissing),
        Bearer::Rejected => Err(AuthFailure::TokenInvalid),
        Bearer::Verified(_) => match user {
            None => Err(AuthFailure::SubjectNotFound),
            Some(account) => {
                if capability.admits(AccessTier::from_status(account.status)) {
                    Ok(account)
                } else {
                    Err(AuthFailure::CapabilityDenied(capability))
                }
            },
        },
    }
}

/// The account of a request that was admitted as any account that the store knows.
#[derive(Debug, PartialEq, Eq)]
pub struct MustLogin {
    pub id: u32,
    pub name: String,
    pub email: String,
    pub pass: String,
    /// The quota of the account, in megabytes.
    pub size: u32,
    /// The root of the account's files, below the storage root.
    pub path: String,
    pub status: u8,
}

impl From<User> for MustLogin {
    fn from(user: User) -> (guard: MustLogin) {
        let User { id, name, email, pass, size, path, status } = user;
        MustLogin { id, name, email, pass, size, path, status }
    }
}

impl FromSpecImpl<User> for MustLogin {
    open spec fn obeys_from_spec() -> bool {
        true
    }

    open spec fn from_spec(user: User) -> MustLogin {
        MustLogin::of(user)
    }
}

impl MustLogin {
    /// The guard that holds what `user` holds, field for field.
    pub open spec fn of(user: User) -> MustLogin {
        MustLogin {
            id: user.id,
            name: user.name,
            email: user.email,
            pass: user.pass,
            size: user.size,
            path: user.path,
            status: user.status,
        }
    }

    /// The capability that this guard asks for.
    pub open spec fn capability() -> Capability {
        Capability::AuthenticatedOnly
    }

    /// The access tier of the account.
    pub fn tier(&self) -> (tier: AccessTier)
        ensures
            tier == AccessTier::of_status(self.status),
    {
        AccessTier::from_status(self.status)
    }

    /// Admits the request as any account that the store knows, or refuses it.
    ///
    /// `store_found` says whether the request reached a user store,
    /// `bearer` what became of its token, and `user` what the store holds
    /// under the id that the token asserts.
    pub fn from_request(store_found: bool, bearer: Bearer, user: Option<User>) -> (r: Result<
        MustLogin,
        ResErr,
    >)
        ensures
            match resolution(Capability::AuthenticatedOnly, store_found, bearer, user) {
                Ok(account) => r == Ok::<MustLogin, ResErr>(MustLogin::of(account)),
                Err(refusal) => r == Err::<MustLogin, ResErr>(refusal.response()),
            },
    {
        match resolve(Capability::AuthenticatedOnly, store_found, bearer, user) {
            Ok(account) => Ok(MustLogin::from(account)),
            Err(refusal) => Err(refusal.into_response()),
        }
    }
}

/// The account of a request that was admitted as an administrator.
#[derive(Debug, PartialEq, Eq)]
pub struct MustAdmin {
    pub id: u32,
    pub name: String,
    pub email: String,
    pub pass: String,
    /// The quota of the account, in megabytes.
    pub size: u32,
    /// The root of the account's files, below the storage root.
    pub path: String,
    pub status: u8,
}

impl From<User> for MustAdmin {
    fn from(user: User) -> (guard: MustAdmin) {
        let User { id, name, email, pass, size, path, status } = user;
        MustAdmin { id, name, email, pass, size, path, status }
    }
}

impl FromSpecImpl<User> for MustAdmin {
    open spec fn obeys_from_spec() -> bool {
        true
    }

    open spec fn from_spec(user: User) -> MustAdmin {
        MustAdmin::of(user)
    }
}

impl MustAdmin {
    /// The guard that holds what `user` holds, field for field.
    pub open spec fn of(user: User) -> MustAdmin {
        MustAdmin {
            id: user.id,
            name: user.name,
            email: user.email,
            pass: user.pass,
            size: user.size,
            path: user.path,
            status: user.status,
        }
    }

    /// The capability that this guard asks for.
    pub open spec fn capability() -> Capability {
        Capability::AdminOnly
    }

    /// The access tier of the account.
    pub fn tier(&self) -> (tier: AccessTier)
        ensures
            tier == AccessTier::of_status(self.status),
    {
        AccessTier::from_status(self.status)
    }

    /// Admits the request as an administrator, or refuses it.
    ///
    /// `store_found` says whether the request reached a user store,
    /// `bearer` what became of its token, and `user` what the store holds
    /// under the id that the token asserts.
    pub fn from_request(store_found: bool, bearer: Bearer, user: Option<User>) -> (r: Result<
        MustAdmin,
        ResErr,
    >)
        ensures
            match resolution(Capability::AdminOnly, store_found, bearer, user) {
                Ok(account) => r == Ok::<MustAdmin, ResErr>(MustAdmin::of(account)),
                Err(refusal) => r == Err::<MustAdmin, ResErr>(refusal.response()),
            },
    {
        match resolve(Capability::AdminOnly, store_found, bearer, user) {
            Ok(account) => Ok(MustAdmin::from(account)),
            Err(refusal) => Err(refusal.into_response()),
        }
    }
}

/// The account of a request that was admitted as an administrator or an operator.
#[derive(Debug, PartialEq, Eq)]
pub struct MustAdminOrOp {
    pub id: u32,
    pub name: String,
    pub email: String,
    pub pass: String,
    /// The quota of the account, in megabytes.
    pub size: u32,
    /// The root of the account's files, below the storage root.
    pub path: String,
    pub status: u8,
}

impl From<User> for MustAdminOrOp {
    fn from(user: User) -> (guard: MustAdminOrOp) {
        let User { id, name, email, pass, size, path, status } = user;
        MustAdminOrOp { id, name, email, pass, size, path, status }
    }
}

impl FromSpecImpl<User> for MustAdminOrOp {
    open spec fn obeys_from_spec() -> bool {
        true
    }

    open spec fn from_spec(user: User) -> MustAdminOrOp {
        MustAdminOrOp::of(user)
    }
}

impl MustAdminOrOp {
    /// The guard that holds what `user` holds, field for field.
    pub open spec fn of(user: User) -> MustAdminOrOp {
        MustAdminOrOp {
            id: user.id,
            name: user.name,
            email: user.email,
            pass: user.pass,
            size: user.size,
            path: user.path,
            status: user.status,
        }
    }

    /// The capability that this guard asks for.
    pub open spec fn capability() -> Capability {
        Capability::AdminOrOperator
    }

    /// The access tier of the account.
    pub fn tier(&self) -> (tier: AccessTier)
        ensures
            tier == AccessTier::of_status(self.status),
    {
        AccessTier::from_status(self.status)
    }

    /// Admits the request as an administrator or an operator, or refuses it.
    ///
    /// `store_found` says whether the request reached a user store,
    /// `bearer` what became of its token, and `user` what the store holds
    /// under the id that the token asserts.
    pub fn from_request(store_found: bool, bearer: Bearer, user: Option<User>) -> (r: Result<
        MustAdminOrOp,
        ResErr,
    >)
        ensures
            match resolution(Capability::AdminOrOperator, store_found, bearer, user) {
                Ok(account) => r == Ok::<MustAdminOrOp, ResErr>(MustAdminOrOp::of(account)),
                Err(refusal) => r == Err::<MustAdminOrOp, ResErr>(refusal.response()),
            },
    {
        match resolve(Capability::AdminOrOperator, store_found, bearer, user) {
            Ok(account) => Ok(MustAdminOrOp::from(account)),
            Err(refusal) => Err(refusal.into_response()),
        }
    }
}

/// The account of a request that was admitted as an account that may upload.
#[derive(Debug, PartialEq, Eq)]
pub struct CanUpload {
    pub id: u32,
    pub name: String,
    pub email: String,
    pub pass: String,
    /// The quota of the account, in megabytes.
    pub size: u32,
    /// The root of the account's files, below the storage root.
    pub path: String,
    pub status: u8,
}

impl From<User> for CanUpload {
    fn from(user: User) -> (guard: CanUpload) {
        let User { id, name, email, pass, size, path, status } = user;
        CanUpload { id, name, email, pass, size, path, status }
    }
}

impl FromSpecImpl<User> for CanUpload {
    open spec fn obeys_from_spec() -> bool {
        true
    }

    open spec fn from_spec(user: User) -> CanUpload {
        CanUpload::of(user)
    }
}

impl CanUpload {
    /// The guard that holds what `user` holds, field for field.
    pub open spec fn of(user: User) -> CanUpload {
        CanUpload {
            id: user.id,
            name: user.name,
            email: user.email,
            pass: user.pass,
            size: user.size,
            path: user.path,
            status: user.status,
        }
    }

    /// The capability that this guard asks for.
    pub open spec fn capability() -> Capability {
        Capability::CanUpload
    }

    /// The access tier of the account.
    pub fn tier(&self) -> (tier: AccessTier)
        ensures
            tier == AccessTier::of_status(self.status),
    {
        AccessTier::from_status(self.status)
    }

    /// Admits the request as an account that may upload, or refuses it.
    ///
    /// `store_found` says whether the request reached a user store,
    /// `bearer` what became of its token, and `user` what the store holds
    /// under the id that the token asserts.
    pub fn from_request(store_found: bool, bearer: Bearer, user: Option<User>) -> (r: Result<
        CanUpload,
        ResErr,
    >)
        ensures
            match resolution(Capability::CanUpload, store_found, bearer, user) {
                Ok(account) => r == Ok::<CanUpload, ResErr>(CanUpload::of(account)),
                Err(refusal) => r == Err::<CanUpload, ResErr>(refusal.response()),
            },
    {
        match resolve(Capability::CanUpload, store_found, bearer, user) {
            Ok(account) => Ok(CanUpload::from(account)),
            Err(refusal) => Err(refusal.into_response()),
        }
    }
}

/// The account of a request that was admitted as an account that may download.
#[derive(Debug, PartialEq, Eq)]
pub struct CanDownload {
    pub id: u32,
    pub name: String,
    pub email: String,
    pub pass: String,
    /// The quota of the account, in megabytes.
    pub size: u32,
    /// The root of the account's files, below the storage root.
    pub path: String,
    pub status: u8,
}

impl From<User> for CanDownload {
    fn from(user: User) -> (guard: CanDownload) {
        let User { id, name, email, pass, size, path, status } = user;
        CanDownload { id, name, email, pass, size, path, status }
    }
}

impl FromSpecImpl<User> for CanDownload {
    open spec fn obeys_from_spec() -> bool {
        true
    }

    open spec fn from_spec(user: User) -> CanDownload {
        CanDownload::of(user)
    }
}

impl CanDownload {
    /// The guard that holds what `user` holds, field for field.
    pub open spec fn of(user: User) -> CanDownload {
        CanDownload {
            id: user.id,
            name: user.name,
            email: user.email,
            pass: user.pass,
            size: user.size,
            path: user.path,
            status: user.status,
        }
    }

    /// The capability that this guard asks for.
    pub open spec fn capability() -> Capability {
        Capability::CanDownload
    }

    /// The access tier of the account.
    pub fn tier(&self) -> (tier: AccessTier)
        ensures
            tier == AccessTier::of_status(self.status),
    {
        AccessTier::from_status(self.status)
    }

    /// Admits the request as an account that may download, or refuses it.
    ///
    /// `store_found` says whether the request reached a user store,
    /// `bearer` what became of its token, and `user` what the store holds
    /// under the id that the token asserts.
    pub fn from_request(store_found: bool, bearer: Bearer, user: Option<User>) -> (r: Result<
        CanDownload,
        ResErr,
    >)
        ensures
            match resolution(Capability::CanDownload, store_found, bearer, user) {
                Ok(account) => r == Ok::<CanDownload, ResErr>(CanDownload::of(account)),
                Err(refusal) => r == Err::<CanDownload, ResErr>(refusal.response()),
            },
    {
        match resolve(Capability::CanDownload, store_found, bearer, user) {
            Ok(account) => Ok(CanDownload::from(account)),
            Err(refusal) => Err(refusal.into_response()),
        }
    }
}

} // verus!
