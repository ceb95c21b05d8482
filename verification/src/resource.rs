//! Identifiers of the things that the API serves, and where each is found.

use std::marker::PhantomData;
use vstd::prelude::*;
use vstd::std_specs::cmp::PartialEqSpecImpl;
use vstd::string::*;
use crate::text::{decimal, decimal_text, parse_decimal, parsed_decimal, push_decimal};

verus! {

/// What has a place in the API.
pub trait Endpoint {
    /// The path of this thing, from the root of the API.
    spec fn path(&self) -> Seq<char>;

    /// Writes the path of this thing.
    fn uri(&self) -> (r: String)
        ensures
            r@ == self.path(),
    ;
}

/// The identifier of a thing of kind `T`: a number that is unique among all
/// things that Discord knows.
#[derive(Debug)]
pub struct Snowflake<T> {
    phantom: PhantomData<T>,
    id: u64,
}

impl<T> View for Snowflake<T> {
    type V = u64;

    closed spec fn view(&self) -> u64 {
        self.id
    }
}

impl<T> Snowflake<T> {
    /// The identifier with this number.
    pub fn new(id: u64) -> (r: Self)
        ensures
            r@ == id,
    {
        Snowflake { phantom: PhantomData, id }
    }

    /// The number of this identifier.
    pub fn as_int(&self) -> (r: u64)
        ensures
            r == self@,
    {
        self.id
    }

    /// The identifier that a text writes in decimal, if it writes one.
    pub fn parse(text: &str) -> (r: Option<Self>)
        ensures
            match r {
                Some(id) => parsed_decimal(text@) == Some(id@),
                None => parsed_decimal(text@) is None,
            },
    {
        match parse_decimal(text) {
            Some(id) => Some(Snowflake::new(id)),
            None => None,
        }
    }

    /// The number of this identifier, in decimal.
    pub fn to_text(&self) -> (r: String)
        ensures
            r@ == decimal_text(self@ as nat),
    {
        decimal(self.id)
    }
}

impl<T> Clone for Snowflake<T> {
    fn clone(&self) -> (r: Self)
        ensures
            r@ == self@,
    {
        Snowflake::new(self.id)
    }
}

impl<T> Copy for Snowflake<T> {

}

impl<T> PartialEq for Snowflake<T> {
    fn eq(&self, other: &Self) -> (r: bool) {
        self.id == other.id
    }
}

impl<T> PartialEqSpecImpl for Snowflake<T> {
    open spec fn obeys_eq_spec() -> bool {
        true
    }

    open spec fn eq_spec(&self, other: &Self) -> bool {
        self@ == other@
    }
}

impl<T> Eq for Snowflake<T> {

}

/// The path of the thing with this identifier under a collection, such as
/// `/channels/` and the number.
pub open spec fn path_under(collection: Seq<char>, id: u64) -> Seq<char> {
    collection + decimal_text(id as nat)
}

/// Writes the path of the thing with this identifier under a collection.
pub fn uri_under(collection: &str, id: u64) -> (r: String)
    ensures
        r@ == path_under(collection@, id),
{
    let mut r = String::from_str(collection);
    push_decimal(&mut r, id);
    r
}

} // verus!
