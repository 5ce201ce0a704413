//! What a connector (or the cache standing in for one) answers to a
//! single request message.

use vstd::prelude::*;

verus! {

/// `not_found` is set only by the cache, when the policy forbids
/// forwarding and no entry exists.
pub struct ResponseMessage {
    pub message: String,
    pub return_code: i32,
    pub is_from_cache: bool,
    pub not_found: bool,
}

/// Spec-level contents of a [`ResponseMessage`].
#[verifier::ext_equal]
pub struct ResponseMessageView {
    pub message: Seq<char>,
    pub return_code: i32,
    pub is_from_cache: bool,
    pub not_found: bool,
}

impl View for ResponseMessage {
    type V = ResponseMessageView;

    open spec fn view(&self) -> ResponseMessageView {
        ResponseMessageView {
            message: self.message@,
            return_code: self.return_code,
            is_from_cache: self.is_from_cache,
            not_found: self.not_found,
        }
    }
}

impl DeepView for ResponseMessage {
    type V = ResponseMessageView;

    open spec fn deep_view(&self) -> ResponseMessageView {
        self.view()
    }
}

/// The view of the answer a cache miss produces under a policy that
/// forbids forwarding.
pub open spec fn spec_not_found_response() -> ResponseMessageView {
    ResponseMessageView {
        message: Seq::empty(),
        return_code: 0,
        is_from_cache: false,
        not_found: true,
    }
}

/// The view of one per-message result.
pub open spec fn spec_result_view(r: Result<ResponseMessage, String>) -> Result<
    ResponseMessageView,
    Seq<char>,
> {
    match r {
        Ok(m) => Ok(m@),
        Err(e) => Err(e@),
    }
}

/// The views of a result sequence, in order.
pub open spec fn spec_results_view(s: Seq<Result<ResponseMessage, String>>) -> Seq<
    Result<ResponseMessageView, Seq<char>>,
> {
    Seq::new(s.len(), |i: int| spec_result_view(s[i]))
}

impl ResponseMessage {
    pub fn new(message: String, return_code: i32) -> (r: ResponseMessage)
        ensures
            r.message@ == message@,
            r.return_code == return_code,
            r.is_from_cache == false,
            r.not_found == false,
    {
        ResponseMessage { message, return_code, is_from_cache: false, not_found: false }
    }

    pub fn new_success(message: String) -> (r: ResponseMessage)
        ensures
            r.message@ == message@,
            r.return_code == 0,
            r.is_from_cache == false,
            r.not_found == false,
    {
        ResponseMessage { message, return_code: 0, is_from_cache: false, not_found: false }
    }

    pub fn empty() -> (r: ResponseMessage)
        ensures
            r.message@.len() == 0,
            r.return_code == 0,
            r.is_from_cache == false,
            r.not_found == false,
    {
        ResponseMessage {
            message: String::new(),
            return_code: 0,
            is_from_cache: false,
            not_found: false,
        }
    }

    /// The answer for a cache miss under a policy that forbids forwarding.
    pub fn new_not_found() -> (r: ResponseMessage)
        ensures
            r.message@.len() == 0,
            r.return_code == 0,
            r.is_from_cache == false,
            r.not_found == true,
    {
        ResponseMessage {
            message: String::new(),
            return_code: 0,
            is_from_cache: false,
            not_found: true,
        }
    }

    pub fn is_success(&self) -> (r: bool)
        ensures
            r == (self.return_code == 0),
    {
        self.return_code == 0
    }

    pub fn is_not_found(&self) -> (r: bool)
        ensures
            r == self.not_found,
    {
        self.not_found
    }
}

/// Maps one transport invocation's outcome to a response: standard
/// output on success; standard error and the exit code (one, when the
/// transport reports none) on failure.
pub fn response_from_output(
    success: bool,
    exit_code: Option<i32>,
    stdout: String,
    stderr: String,
) -> (r: ResponseMessage)
    ensures
        success ==> r@.message == stdout@ && r@.return_code == 0,
        !success ==> r@.message == stderr@ && r@.return_code == (match exit_code {
            Some(code) => code,
            None => 1,
        }),
        r@.is_from_cache == false,
        r@.not_found == false,
{
    if success {
        ResponseMessage::new_success(stdout)
    } else {
        let code = match exit_code {
            Some(code) => code,
            None => 1,
        };
        ResponseMessage::new(stderr, code)
    }
}

impl Clone for ResponseMessage {
    fn clone(&self) -> (r: Self)
        ensures
            r == *self,
    {
        ResponseMessage {
            message: self.message.clone(),
            return_code: self.return_code,
            is_from_cache: self.is_from_cache,
            not_found: self.not_found,
        }
    }
}

} // verus!
