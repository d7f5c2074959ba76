//! Identity and notification dispatch: session tokens, one-time passwords,
//! the request interceptors that guard protected routes, and the bounded
//! queues that hand messages to the SMS and email transports.

pub mod clock;
pub mod config;
pub mod content;
pub mod enums;
pub mod flow;
pub mod jwt;
pub mod login;
pub mod middlewares;
pub mod mobile;
pub mod model;
pub mod otp;
pub mod queue;
pub mod response;
pub mod text;
pub mod verify;
