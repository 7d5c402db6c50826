//! The closed error taxonomy: configuration, remote-service and terminal
//! failures, each carrying the human-readable detail it was raised with.

use vstd::prelude::*;
use vstd::string::StringExecFns;

verus! {

/// Failures while loading or creating the local configuration.
#[derive(Debug)]
pub enum ConfigError {
    Parsing(String),
    ReadLineError(String),
    ReadWithMaskError(String),
    WriteFileError(String),
    ReadNumberLineError(String),
}

/// Failures of the four remote operations, as a closed taxonomy callers can
/// match on: malformed bodies, transport errors, asynchronous transport
/// errors, and explicit authentication rejections.
#[derive(Debug)]
pub enum APIError {
    ParsingError(String),
    RequestError(String),
    AsyncError(String),
    AuthFail(String),
}

/// Failures that may terminate the whole program: startup authentication,
/// configuration, or drawing the terminal.
#[derive(Debug)]
pub enum TerminalError {
    AuthError(String),
    ConfigError(String),
    DrawError(String),
}

impl ConfigError {
    /// The full user-visible message.
    pub open spec fn spec_message(&self) -> Seq<char> {
        match self {
            ConfigError::Parsing(s) => "Erro ao tentar parsear "@ + s@,
            ConfigError::ReadLineError(s) => "Erro ao tentar ler linha "@ + s@,
            ConfigError::ReadWithMaskError(s) => "Erro ao tentar ler senha "@ + s@,
            ConfigError::WriteFileError(s) => "Erro ao tentar escrever arquivo "@ + s@,
            ConfigError::ReadNumberLineError(s) => "Erro ao tentar ler linha numerica "@ + s@,
        }
    }

    /// Renders the error for display.
    pub fn message(&self) -> (r: String)
        ensures
            r@ == self.spec_message(),
    {
        match self {
            ConfigError::Parsing(s) => String::from_str("Erro ao tentar parsear ").concat(
                s.as_str(),
            ),
            ConfigError::ReadLineError(s) => String::from_str("Erro ao tentar ler linha ").concat(
                s.as_str(),
            ),
            ConfigError::ReadWithMaskError(s) => String::from_str(
                "Erro ao tentar ler senha ",
            ).concat(s.as_str()),
            ConfigError::WriteFileError(s) => String::from_str(
                "Erro ao tentar escrever arquivo ",
            ).concat(s.as_str()),
            ConfigError::ReadNumberLineError(s) => String::from_str(
                "Erro ao tentar ler linha numerica ",
            ).concat(s.as_str()),
        }
    }
}

impl APIError {
    /// The full user-visible message.
    pub open spec fn spec_message(&self) -> Seq<char> {
        match self {
            APIError::ParsingError(s) => "Erro ao tentar parsear para json "@ + s@,
            APIError::RequestError(s) => "Erro ao tentar fazer request "@ + s@,
            APIError::AsyncError(s) => "Erro no processo assíncrono "@ + s@,
            APIError::AuthFail(s) => "Falha na Autenticação "@ + s@,
        }
    }

    /// Renders the error for display.
    pub fn message(&self) -> (r: String)
        ensures
            r@ == self.spec_message(),
    {
        match self {
            APIError::ParsingError(s) => String::from_str(
                "Erro ao tentar parsear para json ",
            ).concat(s.as_str()),
            APIError::RequestError(s) => String::from_str("Erro ao tentar fazer request ").concat(
                s.as_str(),
            ),
            APIError::AsyncError(s) => String::from_str("Erro no processo assíncrono ").concat(
                s.as_str(),
            ),
            APIError::AuthFail(s) => String::from_str("Falha na Autenticação ").concat(s.as_str()),
        }
    }
}

impl TerminalError {
    /// The fatal form of a configuration failure, as reported at startup:
    /// the failure's own message becomes the detail.
    pub fn from_config(e: &ConfigError) -> (r: TerminalError)
        ensures
            r matches TerminalError::ConfigError(s) && s@ == e.spec_message(),
    {
        TerminalError::ConfigError(e.message())
    }

    /// The fatal form of a remote failure, as reported at startup: the
    /// failure's own message becomes the detail.
    pub fn from_api(e: &APIError) -> (r: TerminalError)
        ensures
            r matches TerminalError::AuthError(s) && s@ == e.spec_message(),
    {
        TerminalError::AuthError(e.message())
    }

    /// The full user-visible message.
    pub open spec fn spec_message(&self) -> Seq<char> {
        match self {
            TerminalError::AuthError(s) => "Erro ao tentar autenticar "@ + s@,
            TerminalError::ConfigError(s) => "Erro ao tentar carregar config "@ + s@,
            TerminalError::DrawError(s) => "Erro ao tentar desenhar terminal "@ + s@,
        }
    }

    /// Renders the error for display.
    pub fn message(&self) -> (r: String)
        ensures
            r@ == self.spec_message(),
    {
        match self {
            TerminalError::AuthError(s) => String::from_str("Erro ao tentar autenticar ").concat(
                s.as_str(),
            ),
            TerminalError::ConfigError(s) => String::from_str(
                "Erro ao tentar carregar config ",
            ).concat(s.as_str()),
            TerminalError::DrawError(s) => String::from_str(
                "Erro ao tentar desenhar terminal ",
            ).concat(s.as_str()),
        }
    }
}

} // verus!
