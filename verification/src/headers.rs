//! The fixed table of header names used by the runtime API.

use vstd::prelude::*;

verus! {

/// The headers returned by the runtime API's `/next` call.
#[derive(Clone, Copy, Debug, PartialEq, Eq, Structural)]
pub enum LambdaHeaders {
    /// The AWS request ID.
    RequestId,
    /// The ARN of the Lambda function being invoked.
    FunctionArn,
    /// The X-Ray trace ID generated for this invocation.
    TraceId,
    /// The deadline for the function execution, in milliseconds since the epoch.
    Deadline,
    /// The client context header, present when the function is invoked from
    /// a mobile client.
    ClientContext,
    /// The Cognito identity header, present when the function is invoked with
    /// credentials obtained from Cognito Identity.
    CognitoIdentity,
}

impl LambdaHeaders {
    /// The header's name on the wire.
    pub open spec fn name(self) -> Seq<char> {
        match self {
            LambdaHeaders::RequestId => "Lambda-Runtime-Aws-Request-Id"@,
            LambdaHeaders::FunctionArn => "Lambda-Runtime-Invoked-Function-Arn"@,
            LambdaHeaders::TraceId => "Lambda-Runtime-Trace-Id"@,
            LambdaHeaders::Deadline => "Lambda-Runtime-Deadline-Ms"@,
            LambdaHeaders::ClientContext => "Lambda-Runtime-Client-Context"@,
            LambdaHeaders::CognitoIdentity => "Lambda-Runtime-Cognito-Identity"@,
        }
    }

    /// Whether a poll reply must carry this header.
    pub open spec fn required(self) -> bool {
        self is RequestId || self is FunctionArn || self is TraceId || self is Deadline
    }

    /// No header name is longer than 35 characters.
    pub proof fn lemma_name_is_short(self)
        ensures
            0 < self.name().len() <= 35,
    {
        reveal_strlit("Lambda-Runtime-Aws-Request-Id");
        reveal_strlit("Lambda-Runtime-Invoked-Function-Arn");
        reveal_strlit("Lambda-Runtime-Trace-Id");
        reveal_strlit("Lambda-Runtime-Deadline-Ms");
        reveal_strlit("Lambda-Runtime-Client-Context");
        reveal_strlit("Lambda-Runtime-Cognito-Identity");
    }

    /// Returns the `str` representation of the header.
    pub fn as_str(&self) -> (r: &'static str)
        ensures
            r@ == self.name(),
    {
        match self {
            LambdaHeaders::RequestId => "Lambda-Runtime-Aws-Request-Id",
            LambdaHeaders::FunctionArn => "Lambda-Runtime-Invoked-Function-Arn",
            LambdaHeaders::TraceId => "Lambda-Runtime-Trace-Id",
            LambdaHeaders::Deadline => "Lambda-Runtime-Deadline-Ms",
            LambdaHeaders::ClientContext => "Lambda-Runtime-Client-Context",
            LambdaHeaders::CognitoIdentity => "Lambda-Runtime-Cognito-Identity",
        }
    }

    /// The header's name as an owned string, as it is written into messages.
    pub fn to_string(&self) -> (r: String)
        ensures
            r@ == self.name(),
    {
        String::from_str(self.as_str())
    }
}

} // verus!
