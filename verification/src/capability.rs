//! The named transformations that the agent asks of the generative backend.
//!
//! A capability is never run. It stands for its declared signature, a fixed
//! text that shows the backend what the function would take and print.

use vstd::prelude::*;

verus! {

pub const BACKEND_WEBSERVER_CODE_SIGNATURE: &'static str =
    "fn print_backend_webserver_code(_project_description_and_template: &str) {
    /// INPUT: a PROJECT_DESCRIPTION and a CODE_TEMPLATE for the backend of a website
    /// FUNCTION: rewrites the CODE_TEMPLATE so that it does what the PROJECT_DESCRIPTION asks for
    /// IMPORTANT: the template is only an example, change as much of it as the description needs
    /// IMPORTANT: only these libraries are installed: reqwest, serde, serde_json, tokio, actix-web, async-trait, actix_cors
    /// OUTPUT: prints ONLY the code, nothing else
    println!(OUTPUT)
}";

pub const IMPROVED_WEBSERVER_CODE_SIGNATURE: &'static str =
    "fn print_improved_webserver_code(_project_description_and_template: &str) {
    /// INPUT: a PROJECT_DESCRIPTION and a CODE_TEMPLATE for the backend of a website
    /// FUNCTION: reads the code as an expert would, removes its bugs and adds what the
    ///   PROJECT_DESCRIPTION asks for and the code still lacks
    /// IMPORTANT: only these libraries are installed: reqwest, serde, serde_json, tokio, actix-web, async-trait, actix_cors
    /// OUTPUT: prints ONLY the new and improved code, nothing else
    println!(OUTPUT)
}";

pub const FIXED_CODE_SIGNATURE: &'static str =
    "fn print_fixed_code(_broken_code_with_bugs: &str) {
    /// INPUT: BROKEN_CODE and the ERROR_BUGS that the build reported for it
    /// FUNCTION: removes the reported bugs from the code
    /// IMPORTANT: only the bugs are fixed, the rest of the code stays as it is
    /// OUTPUT: prints ONLY the fixed code, nothing else
    println!(OUTPUT)
}";

pub const REST_API_ENDPOINTS_SIGNATURE: &'static str =
    "fn print_rest_api_endpoints(_code_input: &str) {
    /// INPUT: the source code of a web server written with actix-web
    /// FUNCTION: lists every REST endpoint that the code declares, as JSON
    /// IMPORTANT: is_route_dynamic is \"true\" where the route holds a parameter such as {symbol} or {id}
    /// OUTPUT: prints ONLY a JSON array of objects with these fields:
    ///   \"route\": the path, such as \"/item/{id}\"
    ///   \"is_route_dynamic\": \"true\" or \"false\"
    ///   \"method\": the verb in lower case, such as \"get\"
    ///   \"request_body\": the JSON that the endpoint takes, or \"None\"
    ///   \"response\": the JSON that the endpoint gives
    println!(OUTPUT)
}";

pub const USER_INPUT_TO_GOAL_SIGNATURE: &'static str =
    "fn convert_user_input_to_goal(_user_request: &str) {
    /// INPUT: a request written by a user
    /// FUNCTION: turns the request into one short sentence that states the goal
    /// OUTPUT: prints the goal, which starts with \"build a website that ...\"
    println!(OUTPUT)
}";

/// A transformation that the generative backend can be asked to perform.
#[derive(Debug, Clone, Copy, PartialEq, Eq, Structural)]
pub enum Capability {
    /// Writes the first version of the server from a template and a description.
    PrintBackendWebserverCode,
    /// Rewrites code that builds into a better version of itself.
    PrintImprovedWebserverCode,
    /// Repairs code that the build refused.
    PrintFixedCode,
    /// Lists the routes that a server's source declares.
    PrintRestApiEndpoints,
    /// Condenses a user's request into a goal.
    ConvertUserInputToGoal,
}

impl Capability {
    /// The capability's name, as status lines show it.
    pub open spec fn name_text(self) -> Seq<char> {
        match self {
            Capability::PrintBackendWebserverCode => "print_backend_webserver_code"@,
            Capability::PrintImprovedWebserverCode => "print_improved_webserver_code"@,
            Capability::PrintFixedCode => "print_fixed_code"@,
            Capability::PrintRestApiEndpoints => "print_rest_api_endpoints"@,
            Capability::ConvertUserInputToGoal => "convert_user_input_to_goal"@,
        }
    }

    /// The declared signature that stands for the capability in a prompt.
    pub open spec fn signature_text(self) -> Seq<char> {
        match self {
            Capability::PrintBackendWebserverCode => BACKEND_WEBSERVER_CODE_SIGNATURE@,
            Capability::PrintImprovedWebserverCode => IMPROVED_WEBSERVER_CODE_SIGNATURE@,
            Capability::PrintFixedCode => FIXED_CODE_SIGNATURE@,
            Capability::PrintRestApiEndpoints => REST_API_ENDPOINTS_SIGNATURE@,
            Capability::ConvertUserInputToGoal => USER_INPUT_TO_GOAL_SIGNATURE@,
        }
    }

    /// Whether the backend answers with JSON rather than with plain text.
    pub open spec fn answers_in_json(self) -> bool {
        self == Capability::PrintRestApiEndpoints
    }

    pub fn name(&self) -> (name: &'static str)
        ensures
            name@ == self.name_text(),
    {
        match self {
            Capability::PrintBackendWebserverCode => "print_backend_webserver_code",
            Capability::PrintImprovedWebserverCode => "print_improved_webserver_code",
            Capability::PrintFixedCode => "print_fixed_code",
            Capability::PrintRestApiEndpoints => "print_rest_api_endpoints",
            Capability::ConvertUserInputToGoal => "convert_user_input_to_goal",
        }
    }

    pub fn signature(&self) -> (signature: &'static str)
        ensures
            signature@ == self.signature_text(),
    {
        match self {
            Capability::PrintBackendWebserverCode => BACKEND_WEBSERVER_CODE_SIGNATURE,
            Capability::PrintImprovedWebserverCode => IMPROVED_WEBSERVER_CODE_SIGNATURE,
            Capability::PrintFixedCode => FIXED_CODE_SIGNATURE,
            Capability::PrintRestApiEndpoints => REST_API_ENDPOINTS_SIGNATURE,
            Capability::ConvertUserInputToGoal => USER_INPUT_TO_GOAL_SIGNATURE,
        }
    }

    pub fn is_structured(&self) -> (structured: bool)
        ensures
            structured == self.answers_in_json(),
    {
        match self {
            Capability::PrintRestApiEndpoints => true,
            _ => false,
        }
    }
}

} // verus!
