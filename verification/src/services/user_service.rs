//! Registration and login. The user directory is outside the process, so
//! each flow is given as its decisions: the caller asks the directory, hands
//! the reply in, and carries out what comes back.

use crate::domain::{LoginUserDto, RegisterUserDto, UserDto};
use crate::errors::{ApiError, ApiResult};
use crate::clock::clock_reading;
use crate::identifiers::is_random_uuid;
use crate::repositories::token_repository::{record_command, StoreCommand};
use crate::repositories::user_repository::{DirectoryReply, UserEntity};
use crate::services::security_service::{hashable, PasswordError, SecurityService};
use crate::services::token_service::{
    issued, issued_token_opens, law_lifetime_failure_is_told_apart, lifetime_always_fits,
    lifetime_never_fits, recorded_outcome, refused_for_lifetime, TokenError, TokenRole,
    TokenService,
};
use vstd::prelude::*;

verus! {

/// What registration does next, once the directory has said whether the
/// e-mail address is taken.
#[derive(Debug)]
pub enum Registration {
    /// Registration ends with this failure; nothing is to be created.
    Rejected(ApiError),
    /// The directory is to create this user, with the hash in place of the
    /// password.
    Create { name: String, email: String, hashed_password: String },
}

/// A completed login: the user with both tokens attached, and the commands
/// that record the two tokens in the revocation store. A command that the
/// store refuses does not undo the login.
#[derive(Debug)]
pub struct LoginSession {
    pub user: UserDto,
    pub access_record: StoreCommand,
    pub refresh_record: StoreCommand,
}

/// Registers users and logs them in.
#[derive(Debug, Clone)]
pub struct UserService {
    pub security_service: SecurityService,
    pub token_service: TokenService,
}

/// The text of an optional string.
pub open spec fn text_view(text: Option<String>) -> Option<Seq<char>> {
    match text {
        Some(t) => Some(t@),
        None => None,
    }
}

/// Whether `user` shows `entity`: the same identity, and nothing of the
/// password.
pub open spec fn shows(user: UserDto, entity: UserEntity) -> bool {
    &&& user.id@ == entity.id@
    &&& user.name@ == entity.name@
    &&& user.email@ == entity.email@
    &&& user.created_at == entity.created_at
    &&& user.updated_at == entity.updated_at
}

/// What a login that got as far as issuing tokens may return, for the times
/// and identifiers under which the two tokens were issued: the session where
/// both were issued, and the failure of the first that was not, with nothing
/// of the other. Each token of a session opens to the claims it was issued
/// with, and comes with the command that records it.
pub open spec fn session_outcome(
    r: ApiResult<LoginSession>,
    tokens: TokenService,
    entity: UserEntity,
    access_now: int,
    access_uuid: u128,
    refresh_now: int,
    refresh_uuid: u128,
) -> bool {
    let access_secret = tokens.spec_secret(TokenRole::Access);
    let access_age = tokens.spec_max_age(TokenRole::Access);
    let refresh_secret = tokens.spec_secret(TokenRole::Refresh);
    let refresh_age = tokens.spec_max_age(TokenRole::Refresh);
    &&& clock_reading(access_now)
    &&& clock_reading(refresh_now)
    &&& is_random_uuid(access_uuid)
    &&& is_random_uuid(refresh_uuid)
    &&& match issued(entity.id@, access_secret, access_age, access_now, access_uuid) {
        Err(e) => r matches Err(error) && e.is_reported_as(error),
        Ok(access) => match issued(
            entity.id@,
            refresh_secret,
            refresh_age,
            refresh_now,
            refresh_uuid,
        ) {
            Err(e) => r matches Err(error) && e.is_reported_as(error),
            Ok(refresh) => {
                &&& r matches Ok(session)
                &&& shows(session.user, entity)
                &&& text_view(session.user.access_token) == Some(access.token)
                &&& text_view(session.user.refresh_token) == Some(refresh.token)
                &&& session.access_record@ == record_command(access_uuid, entity.id@, access_age)
                &&& session.refresh_record@ == record_command(
                    refresh_uuid,
                    entity.id@,
                    refresh_age,
                )
                &&& issued_token_opens(
                    access.token,
                    entity.id@,
                    access_secret,
                    access_age,
                    access_now,
                    access_uuid,
                )
                &&& issued_token_opens(
                    refresh.token,
                    entity.id@,
                    refresh_secret,
                    refresh_age,
                    refresh_now,
                    refresh_uuid,
                )
            },
        },
    }
}

/// Whether both configured lifetimes fit whatever the clock shows.
pub open spec fn lifetimes_always_fit(tokens: TokenService) -> bool {
    lifetime_always_fits(tokens.spec_max_age(TokenRole::Access)) && lifetime_always_fits(
        tokens.spec_max_age(TokenRole::Refresh),
    )
}

impl UserService {
    pub fn new(security_service: SecurityService, token_service: TokenService) -> (service: Self)
        ensures
            service.security_service == security_service,
            service.token_service == token_service,
    {
        Self { security_service, token_service }
    }

    /// Decides on a registration, given the directory's answer to whether a
    /// user with that e-mail address exists.
    ///
    /// An address that is taken is a conflict. Otherwise the password is
    /// hashed, and the user is to be created with the hash; a password that
    /// cannot be hashed, like a directory that did not answer, is an internal
    /// failure.
    pub fn register_user_handler(
        &self,
        register_user: RegisterUserDto,
        existing: DirectoryReply<bool>,
    ) -> (next: Registration)
        ensures
            match existing {
                DirectoryReply::Unavailable(reason) => next matches Registration::Rejected(
                    ApiError::InternalServerErrorWithContext(m),
                ) && m@ == reason@,
                DirectoryReply::Answered(true) => next matches Registration::Rejected(
                    ApiError::ObjectConflict(m),
                ) && m@ == "User with that email id already exists"@,
                DirectoryReply::Answered(false) => match self.security_service.spec_hash(
                    register_user.password@,
                ) {
                    Ok(hash) => next matches Registration::Create { name, email, hashed_password }
                        && name@ == register_user.name@ && email@ == register_user.email@
                        && hashed_password@ == hash && SecurityService::spec_verify(
                        hash,
                        register_user.password@,
                    ) == Ok::<bool, PasswordError>(true),
                    Err(e) => next matches Registration::Rejected(error) && e.is_reported_as(error),
                },
            },
            existing matches DirectoryReply::Answered(false) ==> (next is Create <==> hashable(
                register_user.password@,
                self.security_service.spec_salt(),
            )),
            next is Create ==> existing matches DirectoryReply::Answered(false),
    {
        match existing {
            DirectoryReply::Unavailable(reason) => Registration::Rejected(
                ApiError::InternalServerErrorWithContext(reason),
            ),
            DirectoryReply::Answered(true) => Registration::Rejected(
                ApiError::ObjectConflict("User with that email id already exists".to_owned()),
            ),
            DirectoryReply::Answered(false) => match self.security_service.hash_password(
                register_user.password.as_str(),
            ) {
                Ok(hashed_password) => Registration::Create {
                    name: register_user.name,
                    email: register_user.email,
                    hashed_password,
                },
                Err(error) => Registration::Rejected(error),
            },
        }
    }

    /// Ends a registration, given the directory's answer to the creation:
    /// the created user as the API shows it, without tokens.
    pub fn complete_registration(&self, created: DirectoryReply<UserEntity>) -> (r: ApiResult<
        UserDto,
    >)
        ensures
            match created {
                DirectoryReply::Unavailable(reason) => r matches Err(
                    ApiError::InternalServerErrorWithContext(m),
                ) && m@ == reason@,
                DirectoryReply::Answered(entity) => r matches Ok(user) && shows(user, entity)
                    && user.access_token is None && user.refresh_token is None,
            },
    {
        match created {
            DirectoryReply::Unavailable(reason) => Err(
                ApiError::InternalServerErrorWithContext(reason),
            ),
            DirectoryReply::Answered(entity) => Ok(UserDto::from(entity)),
        }
    }

    /// Issues both tokens to a user whose password has been verified, and
    /// attaches them.
    ///
    /// With lifetimes that always fit, the session is refused only where
    /// signing fails: never for a lifetime.
    pub fn open_session(&self, entity: UserEntity) -> (r: ApiResult<LoginSession>)
        ensures
            exists|access_now: i64, access_uuid: u128, refresh_now: i64, refresh_uuid: u128|
                session_outcome(
                    r,
                    self.token_service,
                    entity,
                    access_now as int,
                    access_uuid,
                    refresh_now as int,
                    refresh_uuid,
                ),
            lifetimes_always_fit(self.token_service) ==> !refused_for_lifetime(r),
            lifetime_never_fits(self.token_service.spec_max_age(TokenRole::Access))
                ==> refused_for_lifetime(r),
    {
        let access_issue = self.token_service.issue_with_record(
            entity.id.clone(),
            TokenRole::Access,
        );
        let ghost (access_now, access_uuid) = choose|now: i64, token_uuid: u128|
            recorded_outcome(
                access_issue,
                entity.id@,
                self.token_service.spec_secret(TokenRole::Access),
                self.token_service.spec_max_age(TokenRole::Access),
                now as int,
                token_uuid,
            );
        let (access, access_record) = match access_issue {
            Ok(pair) => pair,
            Err(e) => {
                let error = e.to_api_error();
                proof {
                    if TokenError::InvalidLifetime.is_reported_as(error) {
                        law_lifetime_failure_is_told_apart(e, error);
                    }
                }
                let r = Err(error);
                assert(session_outcome(
                    r,
                    self.token_service,
                    entity,
                    access_now as int,
                    access_uuid,
                    access_now as int,
                    access_uuid,
                ));
                return r;
            },
        };
        let refresh_issue = self.token_service.issue_with_record(
            entity.id.clone(),
            TokenRole::Refresh,
        );
        let ghost (refresh_now, refresh_uuid) = choose|now: i64, token_uuid: u128|
            recorded_outcome(
                refresh_issue,
                entity.id@,
                self.token_service.spec_secret(TokenRole::Refresh),
                self.token_service.spec_max_age(TokenRole::Refresh),
                now as int,
                token_uuid,
            );
        let (refresh, refresh_record) = match refresh_issue {
            Ok(pair) => pair,
            Err(e) => {
                let error = e.to_api_error();
                proof {
                    if TokenError::InvalidLifetime.is_reported_as(error) {
                        law_lifetime_failure_is_told_apart(e, error);
                    }
                }
                let r = Err(error);
                assert(session_outcome(
                    r,
                    self.token_service,
                    entity,
                    access_now as int,
                    access_uuid,
                    refresh_now as int,
                    refresh_uuid,
                ));
                return r;
            },
        };
        let ghost shown = entity;
        let mut user = UserDto::from(entity);
        user.access_token = Some(access.token);
        user.refresh_token = Some(refresh.token);
        let r = Ok(LoginSession { user, access_record, refresh_record });
        assert(session_outcome(
            r,
            self.token_service,
            shown,
            access_now as int,
            access_uuid,
            refresh_now as int,
            refresh_uuid,
        ));
        r
    }

    /// Decides on a login, given the directory's answer to the lookup of the
    /// user by e-mail address.
    ///
    /// An unknown address is `NotFound`. A password that does not match the
    /// stored hash, or a stored hash that cannot be checked, fails the
    /// attempt. Only then are the tokens issued: the session holds both, or
    /// the login fails as a whole. With lifetimes that always fit, a login
    /// with the right password fails only where signing does.
    pub fn login_user_handler(
        &self,
        login_user: LoginUserDto,
        found: DirectoryReply<Option<UserEntity>>,
    ) -> (r: ApiResult<LoginSession>)
        ensures
            match found {
                DirectoryReply::Unavailable(reason) => r matches Err(
                    ApiError::InternalServerErrorWithContext(m),
                ) && m@ == reason@,
                DirectoryReply::Answered(None) => r matches Err(ApiError::NotFound(m)) && m@
                    == "User with that email does not exist"@,
                DirectoryReply::Answered(Some(entity)) => match SecurityService::spec_verify(
                    entity.password@,
                    login_user.password@,
                ) {
                    Ok(true) => {
                        &&& exists|
                            access_now: i64,
                            access_uuid: u128,
                            refresh_now: i64,
                            refresh_uuid: u128,
                        |
                            session_outcome(
                                r,
                                self.token_service,
                                entity,
                                access_now as int,
                                access_uuid,
                                refresh_now as int,
                                refresh_uuid,
                            )
                        &&& lifetimes_always_fit(self.token_service) ==> !refused_for_lifetime(r)
                    },
                    _ => r matches Err(ApiError::InvalidLoginAttempt),
                },
            },
    {
        match found {
            DirectoryReply::Unavailable(reason) => Err(
                ApiError::InternalServerErrorWithContext(reason),
            ),
            DirectoryReply::Answered(None) => Err(
                ApiError::NotFound("User with that email does not exist".to_owned()),
            ),
            DirectoryReply::Answered(Some(entity)) => {
                match self.security_service.verify_password(
                    entity.password.as_str(),
                    login_user.password.as_str(),
                ) {
                    Ok(true) => self.open_session(entity),
                    Ok(false) => Err(ApiError::InvalidLoginAttempt),
                    Err(error) => Err(error),
                }
            },
        }
    }

    /// Answers a request for a user, given the directory's answer to the
    /// lookup by identifier.
    pub fn get_user(&self, found: DirectoryReply<Option<UserEntity>>) -> (r: ApiResult<UserDto>)
        ensures
            match found {
                DirectoryReply::Unavailable(reason) => r matches Err(
                    ApiError::InternalServerErrorWithContext(m),
                ) && m@ == reason@,
                DirectoryReply::Answered(None) => r matches Err(ApiError::NotFound(m)) && m@
                    == "User with that userid does not exist"@,
                DirectoryReply::Answered(Some(entity)) => r matches Ok(user) && shows(user, entity)
                    && user.access_token is None && user.refresh_token is None,
            },
    {
        match found {
            DirectoryReply::Unavailable(reason) => Err(
                ApiError::InternalServerErrorWithContext(reason),
            ),
            DirectoryReply::Answered(None) => Err(
                ApiError::NotFound("User with that userid does not exist".to_owned()),
            ),
            DirectoryReply::Answered(Some(entity)) => Ok(UserDto::from(entity)),
        }
    }
}

} // verus!
