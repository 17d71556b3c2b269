//! A rewrite pass that turns synchronous-looking script code into a form a
//! stepped host runtime can pause, throttle and resume.
pub mod ast;
pub mod copy;
pub mod laws;
pub mod member_key;
pub mod model;
pub mod rules;
pub mod type_tags;
pub mod types;
pub mod variables;
pub mod visitor;
