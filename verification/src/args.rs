//! Where the credentials of the account come from: the command line first,
//! the environment second.

use vstd::prelude::*;
use vstd::string::StringExecFns;
use crate::client::{ApiView, GoveeUndocumentedApi};
use crate::identity::client_id_of;

verus! {

/// `std::path::PathBuf`, the path of a file. Nothing in this crate looks
/// inside one.
#[verifier::external_type_specification]
#[verifier::external_body]
pub struct ExPathBuf(std::path::PathBuf);

/// What reading one variable of the environment gave: its value, `None`
/// where it is not set, or the reason why it could not be read.
pub type EnvLookup = Result<Option<String>, String>;

/// Why no credentials could be had.
#[derive(Debug, PartialEq, Eq)]
pub enum CredentialError {
    /// The environment could not be read; the text says why.
    Environment(String),
    /// Neither the command line nor the environment names the email address.
    MissingEmail,
    /// Neither the command line nor the environment names the password.
    MissingPassword,
}

/// The mathematical content of a [`CredentialError`].
pub enum CredentialErrorView {
    Environment(Seq<char>),
    MissingEmail,
    MissingPassword,
}

impl View for CredentialError {
    type V = CredentialErrorView;

    open spec fn view(&self) -> CredentialErrorView {
        match self {
            CredentialError::Environment(e) => CredentialErrorView::Environment(e@),
            CredentialError::MissingEmail => CredentialErrorView::MissingEmail,
            CredentialError::MissingPassword => CredentialErrorView::MissingPassword,
        }
    }
}

impl CredentialErrorView {
    /// What the user is told.
    pub open spec fn message(self) -> Seq<char> {
        match self {
            CredentialErrorView::Environment(e) => e,
            CredentialErrorView::MissingEmail =>
                "Please specify the govee account email either via the --govee-email parameter or by setting $GOVEE_EMAIL"@,
            CredentialErrorView::MissingPassword =>
                "Please specify the govee account password either via the --govee-password parameter or by setting $GOVEE_PASSWORD"@,
        }
    }
}

impl CredentialError {
    /// What the user is told.
    pub fn message(&self) -> (text: String)
        ensures
            text@ == self@.message(),
    {
        match self {
            CredentialError::Environment(e) => e.clone(),
            CredentialError::MissingEmail => String::from_str(
                "Please specify the govee account email either via the --govee-email parameter or by setting $GOVEE_EMAIL",
            ),
            CredentialError::MissingPassword => String::from_str(
                "Please specify the govee account password either via the --govee-password parameter or by setting $GOVEE_PASSWORD",
            ),
        }
    }
}

/// The view of an optional text.
pub open spec fn text_view(text: Option<String>) -> Option<Seq<char>> {
    match text {
        Some(t) => Some(t@),
        None => None,
    }
}

/// The view of what reading the environment gave.
pub open spec fn lookup_view(env: EnvLookup) -> Result<Option<Seq<char>>, Seq<char>> {
    match env {
        Ok(value) => Ok(text_view(value)),
        Err(reason) => Err(reason@),
    }
}

/// The view of a setting that was looked for.
pub open spec fn found_view(found: Result<Option<String>, CredentialError>) -> Result<
    Option<Seq<char>>,
    CredentialErrorView,
> {
    match found {
        Ok(value) => Ok(text_view(value)),
        Err(e) => Err(e@),
    }
}

/// The view of a setting that was asked for.
pub open spec fn required_view(found: Result<String, CredentialError>) -> Result<
    Seq<char>,
    CredentialErrorView,
> {
    match found {
        Ok(value) => Ok(value@),
        Err(e) => Err(e@),
    }
}

/// A setting as the command line and the environment give it: the command
/// line wins, and the environment is not consulted where it does, not even
/// for its failure.
pub open spec fn resolved(
    argument: Option<Seq<char>>,
    env: Result<Option<Seq<char>>, Seq<char>>,
) -> Result<Option<Seq<char>>, CredentialErrorView> {
    match argument {
        Some(value) => Ok(Some(value)),
        None => match env {
            Ok(value) => Ok(value),
            Err(reason) => Err(CredentialErrorView::Environment(reason)),
        },
    }
}

/// A setting that has to be there: `missing` where [`resolved`] finds none.
pub open spec fn required(
    argument: Option<Seq<char>>,
    env: Result<Option<Seq<char>>, Seq<char>>,
    missing: CredentialErrorView,
) -> Result<Seq<char>, CredentialErrorView> {
    match resolved(argument, env) {
        Ok(Some(value)) => Ok(value),
        Ok(None) => Err(missing),
        Err(e) => Err(e),
    }
}

/// The arguments of the command line that concern the account API.
#[derive(Debug)]
pub struct UndocApiArguments {
    /// The email address of the account, if it was given.
    pub govee_email: Option<String>,
    /// The password of the account, if it was given.
    pub govee_password: Option<String>,
    /// Where the key of the message broker is stored.
    pub govee_iot_key: std::path::PathBuf,
    /// Where the certificate of the message broker is stored.
    pub govee_iot_cert: std::path::PathBuf,
    /// Where the root certificate of the broker's authority is found.
    pub amazon_root_ca: std::path::PathBuf,
}

fn resolve(argument: &Option<String>, env: EnvLookup) -> (found: Result<
    Option<String>,
    CredentialError,
>)
    ensures
        found_view(found) == resolved(text_view(*argument), lookup_view(env)),
{
    match argument {
        Some(value) => Ok(Some(value.clone())),
        None => match env {
            Ok(value) => Ok(value),
            Err(reason) => Err(CredentialError::Environment(reason)),
        },
    }
}

impl UndocApiArguments {
    /// The email address of the account, from the command line or else from
    /// `env`, which is what reading `GOVEE_EMAIL` gave.
    pub fn opt_email(&self, env: EnvLookup) -> (found: Result<Option<String>, CredentialError>)
        ensures
            found_view(found) == resolved(text_view(self.govee_email), lookup_view(env)),
    {
        resolve(&self.govee_email, env)
    }

    /// The email address of the account, or the error that asks for it.
    pub fn email(&self, env: EnvLookup) -> (found: Result<String, CredentialError>)
        ensures
            required_view(found) == required(
                text_view(self.govee_email),
                lookup_view(env),
                CredentialErrorView::MissingEmail,
            ),
    {
        match self.opt_email(env) {
            Ok(Some(value)) => Ok(value),
            Ok(None) => Err(CredentialError::MissingEmail),
            Err(e) => Err(e),
        }
    }

    /// The password of the account, from the command line or else from
    /// `env`, which is what reading `GOVEE_PASSWORD` gave.
    pub fn opt_password(&self, env: EnvLookup) -> (found: Result<Option<String>, CredentialError>)
        ensures
            found_view(found) == resolved(text_view(self.govee_password), lookup_view(env)),
    {
        resolve(&self.govee_password, env)
    }

    /// The password of the account, or the error that asks for it.
    pub fn password(&self, env: EnvLookup) -> (found: Result<String, CredentialError>)
        ensures
            required_view(found) == required(
                text_view(self.govee_password),
                lookup_view(env),
                CredentialErrorView::MissingPassword,
            ),
    {
        match self.opt_password(env) {
            Ok(Some(value)) => Ok(value),
            Ok(None) => Err(CredentialError::MissingPassword),
            Err(e) => Err(e),
        }
    }

    /// The client for the account that the arguments and the environment
    /// name. The email address is looked for first, and its error comes
    /// first.
    pub fn api_client(&self, email_env: EnvLookup, password_env: EnvLookup) -> (client: Result<
        GoveeUndocumentedApi,
        CredentialError,
    >)
        ensures
            match required(
                text_view(self.govee_email),
                lookup_view(email_env),
                CredentialErrorView::MissingEmail,
            ) {
                Err(e) => client matches Err(got) && got@ == e,
                Ok(email) => match required(
                    text_view(self.govee_password),
                    lookup_view(password_env),
                    CredentialErrorView::MissingPassword,
                ) {
                    Err(e) => client matches Err(got) && got@ == e,
                    Ok(password) => client matches Ok(api) && api@ == (ApiView {
                        email,
                        password,
                        client_id: client_id_of(email),
                    }),
                },
            },
    {
        let email = match self.email(email_env) {
            Ok(value) => value,
            Err(e) => {
                return Err(e);
            },
        };
        let password = match self.password(password_env) {
            Ok(value) => value,
            Err(e) => {
                return Err(e);
            },
        };
        Ok(GoveeUndocumentedApi::new(email, password))
    }
}

} // verus!
