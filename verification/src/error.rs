//! Why a tag could not be identified.

use vstd::prelude::*;

verus! {

/// The reason an identification attempt failed.  The three reasons are told
/// apart so that a caller can log a rejected credential differently from an
/// unknown one.
#[derive(Debug)]
pub enum IdentificationError<Tae> {
    /// The store failed while the tag was looked up.
    DatabaseError(rusqlite::Error),
    /// The secondary authentication of the tag failed; holds the
    /// authenticator's own error.
    TagAuthenticationError(Tae),
    /// No tag with the presented identifier is known.
    TagNotFound,
}

/// `String::push_str`: appends `more` to the end of `text`.
#[verifier::external_body]
fn append(text: &mut String, more: &str)
    ensures
        final(text)@ == old(text)@ + more@,
{
    text.push_str(more)
}

impl<Tae: core::fmt::Display> IdentificationError<Tae> {
    /// The failure in one line: the description, a colon, and then either
    /// the text that the underlying cause displays as or, for an unknown
    /// tag, the words `tag not found.`.
    pub fn message(&self) -> (text: String)
        ensures
            self is TagNotFound ==> text@ == "failed to identify user: tag not found."@,
            self matches IdentificationError::DatabaseError(e) ==> exists|cause: String|
                vstd::string::to_string_from_display_ensures::<rusqlite::Error>(&e, cause)
                    && text@ == "failed to identify user: "@ + cause@,
            self matches IdentificationError::TagAuthenticationError(e) ==> exists|cause: String|
                vstd::string::to_string_from_display_ensures::<Tae>(&e, cause) && text@
                    == "failed to identify user: "@ + cause@,
    {
        let mut text = "failed to identify user: ".to_owned();
        let ghost head = text@;
        match self {
            IdentificationError::DatabaseError(e) => {
                let cause = e.to_string();
                append(&mut text, cause.as_str());
                assert(text@ == head + cause@);
            },
            IdentificationError::TagAuthenticationError(e) => {
                let cause = e.to_string();
                append(&mut text, cause.as_str());
                assert(text@ == head + cause@);
            },
            IdentificationError::TagNotFound => {
                append(&mut text, "tag not found.");
                proof {
                    reveal_strlit("failed to identify user: ");
                    reveal_strlit("tag not found.");
                    reveal_strlit("failed to identify user: tag not found.");
                    assert(text@ =~= "failed to identify user: tag not found."@);
                }
            },
        }
        text
    }
}

impl<Tae> IdentificationError<Tae> {
    /// A fixed, short description shared by every variant.
    pub fn description(&self) -> (text: &'static str)
        ensures
            text@ == "failed to identify user"@,
    {
        "failed to identify user"
    }

    /// Whether the failure has an underlying cause: every failure but an
    /// unknown tag has one.
    pub fn has_cause(&self) -> (yes: bool)
        ensures
            yes == !(self is TagNotFound),
    {
        match self {
            IdentificationError::DatabaseError(_) => true,
            IdentificationError::TagAuthenticationError(_) => true,
            IdentificationError::TagNotFound => false,
        }
    }
}

impl<Tae> From<rusqlite::Error> for IdentificationError<Tae> {
    fn from(err: rusqlite::Error) -> (e: Self) {
        IdentificationError::DatabaseError(err)
    }
}

impl<Tae> vstd::std_specs::convert::FromSpecImpl<rusqlite::Error> for IdentificationError<Tae> {
    open spec fn obeys_from_spec() -> bool {
        true
    }

    open spec fn from_spec(err: rusqlite::Error) -> Self {
        IdentificationError::DatabaseError(err)
    }
}

} // verus!
