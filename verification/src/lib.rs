//! Decision logic of an autonomous backend-developer agent: prompt
//! composition, the retry policy of the model client, route filtering,
//! probe classification and the agent's state machine. All input and
//! output is left to the caller, who performs the work that each step
//! asks for and reports back what happened.

pub mod agent;
pub mod backend;
pub mod capability;
pub mod command_line;
pub mod context;
pub mod fact_sheet;
pub mod laws;
pub mod message;
pub mod model;
pub mod prompt;
pub mod protocol;
pub mod request;
pub mod text;
pub mod validator;
