//! Typed building blocks of a Discord bot: the gateway session protocol,
//! resource identifiers and their endpoints, message markup, and the rules
//! of the card game played through it.

pub mod application;
pub mod cah;
pub mod chance;
pub mod channel;
pub mod command;
pub mod game;
pub mod gateway;
pub mod guild;
pub mod interaction;
pub mod json;
pub mod kind;
pub mod markup;
pub mod message;
pub mod request;
pub mod resource;
pub mod text;
pub mod user;
