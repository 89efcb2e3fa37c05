//! Error kinds reported by the reload lifecycle.
//!
//! Both kinds are non-fatal: a failed load is reported and the controller
//! keeps whatever value it last published.

use vstd::prelude::*;

verus! {

/// A payload was read but did not parse. Carries positional context so the
/// failure can be shown to a human.
#[derive(Debug)]
pub struct DecodeError {
    /// Line of the input at which decoding failed (1-based; 0 when the
    /// failure has no position, such as a missing field).
    pub line: u64,
    /// Column of the input at which decoding failed (1-based; 0 when the
    /// failure has no position).
    pub col: u64,
    /// Human-readable description of what was expected and found.
    pub message: String,
}

/// Mathematical model of a [`DecodeError`].
pub struct DecodeErrorModel {
    pub line: u64,
    pub col: u64,
    pub message: Seq<char>,
}

impl View for DecodeError {
    type V = DecodeErrorModel;

    open spec fn view(&self) -> DecodeErrorModel {
        DecodeErrorModel { line: self.line, col: self.col, message: self.message@ }
    }
}

impl DeepView for DecodeError {
    type V = DecodeErrorModel;

    open spec fn deep_view(&self) -> DecodeErrorModel {
        self.view()
    }
}

/// A failure surfaced by one load completion.
#[derive(Debug)]
pub enum ConfigError {
    /// The source could not be read at all; carries an I/O description.
    Io { message: String },
    /// The source was read but its bytes did not decode.
    Decode(DecodeError),
}

/// Mathematical model of a [`ConfigError`].
pub enum ConfigErrorModel {
    Io(Seq<char>),
    Decode(DecodeErrorModel),
}

impl View for ConfigError {
    type V = ConfigErrorModel;

    open spec fn view(&self) -> ConfigErrorModel {
        match self {
            ConfigError::Io { message } => ConfigErrorModel::Io(message@),
            ConfigError::Decode(e) => ConfigErrorModel::Decode(e@),
        }
    }
}

impl DeepView for ConfigError {
    type V = ConfigErrorModel;

    open spec fn deep_view(&self) -> ConfigErrorModel {
        self.view()
    }
}

impl ConfigError {
    /// One-line description of the failure, for reporting.
    pub fn describe(&self) -> (r: String)
        ensures
            self matches ConfigError::Io { message } ==> r@ == message@,
            self matches ConfigError::Decode(e) ==> r@ == e.message@,
    {
        match self {
            ConfigError::Io { message } => message.clone(),
            ConfigError::Decode(e) => e.message.clone(),
        }
    }
}

} // verus!
