//! The kinds of things that an identifier can stand for. An identifier is
//! tagged with one of these, so that the identifier of a channel is never
//! taken for that of a guild.

use vstd::prelude::*;

verus! {

#[derive(Debug)]
pub struct Application;

#[derive(Debug)]
pub struct Attachment;

#[derive(Debug)]
pub struct Channel;

#[derive(Debug)]
pub struct Command;

#[derive(Debug)]
pub struct Guild;

#[derive(Debug)]
pub struct Interaction;

#[derive(Debug)]
pub struct Message;

#[derive(Debug)]
pub struct User;

} // verus!
