//! The record that classifies one occurrence of an error.

use crate::fingerprint::fingerprint;
use crate::fingerprint::fingerprint_of;
use vstd::prelude::*;

verus! {

/// The message shown to a client where a variant configures none.
pub open spec fn fallback_message() -> Seq<char> {
    "Unknown error"@
}

/// What a client reads for a configured message: the message itself, or the
/// fallback where it is empty.
pub open spec fn client_message_of(configured: Seq<char>) -> Seq<char> {
    if configured.len() == 0 {
        fallback_message()
    } else {
        configured
    }
}

/// A rendered line: the code and the fingerprint in square brackets, joined
/// by a hyphen, then a space and the message.
pub open spec fn labelled_line(code: Seq<char>, hash: Seq<char>, message: Seq<char>) -> Seq<char> {
    seq!['['] + code + seq!['-'] + hash + seq![']', ' '] + message
}

/// The classification of one error occurrence.
pub struct ErrorInfo<T> {
    /// The application-facing status.
    pub app_code: T,
    /// The taxonomy's prefix followed by the variant's short code.
    pub code: String,
    /// The fingerprint of `server_msg`.
    pub hash: String,
    /// The configured client message, stored verbatim; possibly empty.
    pub client_msg: String,
    /// The full diagnostic text; for internal readers only.
    pub server_msg: String,
}

/// A record as a mathematical value: its texts as sequences of characters.
pub ghost struct ErrorInfoView<T> {
    pub app_code: T,
    pub code: Seq<char>,
    pub hash: Seq<char>,
    pub client_msg: Seq<char>,
    pub server_msg: Seq<char>,
}

impl<T> ErrorInfoView<T> {
    /// The record's fingerprint is the one of its diagnostic text.
    pub open spec fn wf(self) -> bool {
        self.hash == fingerprint_of(self.server_msg)
    }

    /// What a client reads as the message.
    pub open spec fn client_message(self) -> Seq<char> {
        client_message_of(self.client_msg)
    }

    /// The line that is safe to show to a client.
    pub open spec fn display_text(self) -> Seq<char> {
        labelled_line(self.code, self.hash, self.client_message())
    }

    /// The line for internal logs.
    pub open spec fn debug_text(self) -> Seq<char> {
        labelled_line(self.code, self.hash, self.server_msg)
    }
}

/// The record of an occurrence: the given values, and the fingerprint of the
/// diagnostic text.
pub open spec fn record_of<T>(
    app_code: T,
    code: Seq<char>,
    client_msg: Seq<char>,
    server_msg: Seq<char>,
) -> ErrorInfoView<T> {
    ErrorInfoView { app_code, code, hash: fingerprint_of(server_msg), client_msg, server_msg }
}

impl<T> View for ErrorInfo<T> {
    type V = ErrorInfoView<T>;

    open spec fn view(&self) -> ErrorInfoView<T> {
        ErrorInfoView {
            app_code: self.app_code,
            code: self.code@,
            hash: self.hash@,
            client_msg: self.client_msg@,
            server_msg: self.server_msg@,
        }
    }
}

impl<T> ErrorInfo<T> {
    /// Builds the record of an occurrence whose application code is already
    /// parsed: fingerprints the diagnostic text and stores the rest verbatim.
    pub fn new(app_code: T, code: &str, client_msg: &str, server_msg: &str) -> (info: Self)
        ensures
            info@ == record_of(app_code, code@, client_msg@, server_msg@),
    {
        let hash = fingerprint(server_msg);
        ErrorInfo {
            app_code,
            code: code.to_owned(),
            hash,
            client_msg: client_msg.to_owned(),
            server_msg: server_msg.to_owned(),
        }
    }

    /// Builds the record from the outcome of parsing the application code: a
    /// parse failure is handed back unchanged and no record is built.
    pub fn from_parsed<E>(
        parsed: Result<T, E>,
        code: &str,
        client_msg: &str,
        server_msg: &str,
    ) -> (outcome: Result<Self, E>)
        ensures
            match parsed {
                Ok(app_code) => outcome matches Ok(info) && info@ == record_of(
                    app_code,
                    code@,
                    client_msg@,
                    server_msg@,
                ),
                Err(failure) => outcome == Err::<Self, E>(failure),
            },
    {
        match parsed {
            Ok(app_code) => Ok(Self::new(app_code, code, client_msg, server_msg)),
            Err(failure) => Err(failure),
        }
    }

    /// Parses the application code with `parse` and builds the record of what
    /// it gave; a parse failure is handed back and no record is built.
    pub fn try_new<E, F: Fn(&str) -> Result<T, E>>(
        parse: F,
        app_code: &str,
        code: &str,
        client_msg: &str,
        server_msg: &str,
    ) -> (outcome: Result<Self, E>)
        requires
            call_requires(parse, (app_code,)),
        ensures
            match outcome {
                Ok(info) => call_ensures(parse, (app_code,), Ok::<T, E>(info.app_code)) && info@
                    == record_of(info.app_code, code@, client_msg@, server_msg@),
                Err(failure) => call_ensures(parse, (app_code,), Err::<T, E>(failure)),
            },
    {
        Self::from_parsed(parse(app_code), code, client_msg, server_msg)
    }

    /// The message for a client: the configured one, or the fallback where
    /// none is configured. Decided at each read.
    pub fn client_msg(&self) -> (message: &str)
        ensures
            message@ == self@.client_message(),
    {
        if self.client_msg.as_str().is_empty() {
            "Unknown error"
        } else {
            self.client_msg.as_str()
        }
    }

    /// Renders the client-safe line.
    pub fn display_string(&self) -> (line: String)
        ensures
            line@ == self@.display_text(),
    {
        render_line(self.code.as_str(), self.hash.as_str(), self.client_msg())
    }

    /// Renders the internal line, which ends with the diagnostic text.
    pub fn debug_string(&self) -> (line: String)
        ensures
            line@ == self@.debug_text(),
    {
        render_line(self.code.as_str(), self.hash.as_str(), self.server_msg.as_str())
    }
}

/// Renders a labelled line.
pub fn render_line(code: &str, hash: &str, message: &str) -> (line: String)
    ensures
        line@ == labelled_line(code@, hash@, message@),
{
    proof {
        reveal_strlit("[");
        reveal_strlit("-");
        reveal_strlit("] ");
    }
    let mut line = "[".to_owned();
    assert(line@ =~= seq!['[']);
    line.append(code);
    line.append("-");
    assert("-"@ =~= seq!['-']);
    line.append(hash);
    line.append("] ");
    assert("] "@ =~= seq![']', ' ']);
    line.append(message);
    line
}

/// What every error taxonomy offers: the classification of a concrete error
/// value. An implementation owes a record whose fingerprint is the one of its
/// diagnostic text.
pub trait ToErrorInfo {
    /// The application-facing status type.
    type T;

    /// Classifies this error value.
    fn to_error_info(&self) -> (info: ErrorInfo<Self::T>)
        ensures
            info@.wf(),
    ;
}

} // verus!
