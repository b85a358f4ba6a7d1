//! The envelope in which the service answers: a payload, or a list of errors.

use vstd::prelude::*;

verus! {

/// One error that the service reports in place of a payload.
#[derive(Debug, PartialEq, Eq)]
pub struct GenericError {
    /// The machine code of the error, such as `invalid_token`.
    pub code: String,
    pub path: Option<String>,
    /// The message meant for the user.
    pub user_message: String,
    pub timestamp: String,
}

impl Clone for GenericError {
    fn clone(&self) -> (copy: Self)
        ensures
            copy == *self,
    {
        let path = match &self.path {
            Some(p) => Some(p.clone()),
            None => None,
        };
        GenericError {
            code: self.code.clone(),
            path,
            user_message: self.user_message.clone(),
            timestamp: self.timestamp.clone(),
        }
    }
}

/// What an endpoint answered: the errors it listed, or the payload.
#[derive(Clone, Debug)]
pub enum EndpointResponse<T> {
    Errors(Vec<GenericError>),
    Success(T),
}

/// The errors that an endpoint listed in place of a payload.
#[derive(Clone, Debug)]
pub struct GenericEndpointError(pub Vec<GenericError>);

/// The line that one error contributes to a message.
pub open spec fn error_line(error: GenericError) -> Seq<char> {
    error.user_message@ + " ("@ + error.code@ + "). "@
}

/// The lines of `errors` one after another.
pub open spec fn error_lines(errors: Seq<GenericError>) -> Seq<char>
    decreases errors.len(),
{
    if errors.len() == 0 {
        Seq::empty()
    } else {
        error_lines(errors.drop_last()) + error_line(errors.last())
    }
}

impl GenericEndpointError {
    /// The machine code of the first error, if there is one.
    pub open spec fn first_code(&self) -> Option<Seq<char>> {
        if self.0@.len() > 0 {
            Some(self.0@[0].code@)
        } else {
            None
        }
    }

    /// The message for the user: each error's message with its code in
    /// brackets, in the order the service listed them.
    pub fn message(&self) -> (text: String)
        ensures
            text@ == error_lines(self.0@),
    {
        let mut text = String::new();
        let mut i: usize = 0;
        while i < self.0.len()
            invariant
                i <= self.0.len(),
                text@ == error_lines(self.0@.take(i as int)),
            decreases self.0.len() - i,
        {
            let error = &self.0[i];
            let ghost before = text@;
            text.append(error.user_message.as_str());
            text.append(" (");
            text.append(error.code.as_str());
            text.append("). ");
            proof {
                assert(self.0@.take(i + 1).drop_last() == self.0@.take(i as int));
                assert(text@ == before + error_line(*error));
            }
            i += 1;
        }
        assert(self.0@.take(i as int) == self.0@);
        text
    }
}

impl<T> EndpointResponse<T> {
    /// The payload, or the errors listed in its place.
    pub fn ok(self) -> (outcome: Result<T, GenericEndpointError>)
        ensures
            match self {
                EndpointResponse::Success(value) => outcome == Ok::<T, GenericEndpointError>(value),
                EndpointResponse::Errors(errors) => outcome matches Err(e) && e.0 == errors,
            },
    {
        match self {
            EndpointResponse::Success(value) => Ok(value),
            EndpointResponse::Errors(errors) => Err(GenericEndpointError(errors)),
        }
    }
}

} // verus!
