//! The request flows: register, login, logout and refresh.
//!
//! Each flow is a state machine. Its first function looks at the request
//! and either answers at once or names a question for the store together
//! with the state to come back to; its resume function takes that state and
//! the store's reply and does the same again. The caller runs the
//! statements and sends the final response.
pub mod login;
pub mod logout;
pub mod refresh_token;
pub mod register;
pub mod response;
