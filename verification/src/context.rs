//! What the runtime API tells the worker about one invocation.

use vstd::prelude::*;
use crate::string_map::StringMap;

verus! {

/// AWS Mobile SDK client properties.
#[derive(Clone, Debug)]
pub struct ClientApplication {
    /// The mobile app installation id.
    pub installation_id: String,
    /// The app title for the mobile app as registered with AWS' mobile services.
    pub app_title: String,
    /// The version name of the application as registered with AWS' mobile services.
    pub app_version_name: String,
    /// The app version code.
    pub app_version_code: String,
    /// The package name for the mobile application invoking the function.
    pub app_package_name: String,
}

/// A [`ClientApplication`] as plain values.
pub struct ClientApplicationView {
    pub installation_id: Seq<char>,
    pub app_title: Seq<char>,
    pub app_version_name: Seq<char>,
    pub app_version_code: Seq<char>,
    pub app_package_name: Seq<char>,
}

impl View for ClientApplication {
    type V = ClientApplicationView;

    open spec fn view(&self) -> ClientApplicationView {
        ClientApplicationView {
            installation_id: self.installation_id@,
            app_title: self.app_title@,
            app_version_name: self.app_version_name@,
            app_version_code: self.app_version_code@,
            app_package_name: self.app_package_name@,
        }
    }
}

/// Client context sent by the AWS Mobile SDK.
#[derive(Clone, Debug)]
pub struct ClientContext {
    /// Information about the mobile application invoking the function.
    pub client: ClientApplication,
    /// Custom properties attached to the mobile event context.
    pub custom: StringMap,
    /// Environment settings from the mobile client.
    pub environment: StringMap,
}

/// A [`ClientContext`] as plain values.
pub struct ClientContextView {
    pub client: ClientApplicationView,
    pub custom: Map<Seq<char>, Seq<char>>,
    pub environment: Map<Seq<char>, Seq<char>>,
}

impl View for ClientContext {
    type V = ClientContextView;

    open spec fn view(&self) -> ClientContextView {
        ClientContextView {
            client: self.client@,
            custom: self.custom@,
            environment: self.environment@,
        }
    }
}

/// Cognito identity information sent with the event.
#[derive(Clone, Debug)]
pub struct CognitoIdentity {
    /// The unique identity id for the Cognito credentials invoking the function.
    pub identity_id: String,
    /// The identity pool id the caller is "registered" with.
    pub identity_pool_id: String,
}

/// A [`CognitoIdentity`] as plain values.
pub struct CognitoIdentityView {
    pub identity_id: Seq<char>,
    pub identity_pool_id: Seq<char>,
}

impl View for CognitoIdentity {
    type V = CognitoIdentityView;

    open spec fn view(&self) -> CognitoIdentityView {
        CognitoIdentityView {
            identity_id: self.identity_id@,
            identity_pool_id: self.identity_pool_id@,
        }
    }
}

/// The Lambda function execution context, read from the headers of one poll
/// reply. All four required values are always there: a reply that lacks one
/// gives no context at all.
#[derive(Clone, Debug)]
pub struct EventContext {
    /// The ARN of the Lambda function being invoked.
    pub invoked_function_arn: String,
    /// The AWS request ID generated by the Lambda service.
    pub aws_request_id: String,
    /// The X-Ray trace ID for the current invocation.
    pub xray_trace_id: String,
    /// The execution deadline for the current invocation, in milliseconds
    /// since the epoch.
    pub deadline: i64,
    /// The client context object sent by the AWS mobile SDK. This field is
    /// empty unless the function is invoked using an AWS mobile SDK.
    pub client_context: Option<ClientContext>,
    /// The Cognito identity that invoked the function. This field is empty
    /// unless the invocation request was made using AWS credentials issued
    /// by Amazon Cognito Identity Pools.
    pub identity: Option<CognitoIdentity>,
}

/// An [`EventContext`] as plain values.
pub struct EventContextView {
    pub invoked_function_arn: Seq<char>,
    pub aws_request_id: Seq<char>,
    pub xray_trace_id: Seq<char>,
    pub deadline: i64,
    pub client_context: Option<ClientContextView>,
    pub identity: Option<CognitoIdentityView>,
}

impl View for EventContext {
    type V = EventContextView;

    open spec fn view(&self) -> EventContextView {
        EventContextView {
            invoked_function_arn: self.invoked_function_arn@,
            aws_request_id: self.aws_request_id@,
            xray_trace_id: self.xray_trace_id@,
            deadline: self.deadline,
            client_context: match self.client_context {
                Some(c) => Some(c@),
                None => None,
            },
            identity: match self.identity {
                Some(i) => Some(i@),
                None => None,
            },
        }
    }
}

} // verus!
