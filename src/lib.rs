//! A typed client for the Pomotodo service: domain entities and their JSON
//! mapping, query strings, request construction and response sorting.
//!
//! The transport is not part of the library: each `Client` operation takes
//! a function that performs one HTTP request and returns what came back.

pub mod time;
pub mod ident;
pub mod json;
pub mod fields;
pub mod query;
pub mod pomo;
pub mod todo;
pub mod account;
pub mod http;
pub mod response;
pub mod client;

pub use account::Account;
pub use client::Client;
pub use http::{Error, HttpRequest, HttpResponse, Method, TransportError};
pub use ident::Uuid;
pub use json::{JsonDocument, JsonObject, JsonValue};
pub use pomo::{Pomo, PomoBuilder, PomoParameter};
pub use time::Timestamp;
pub use todo::{RepeatType, SubTodo, SubTodoBuilder, Todo, TodoBuilder, TodoParameter};
