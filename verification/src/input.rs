//! The request payload of the hello endpoint and the greeting built from it.

use vstd::prelude::*;
use crate::text::{dec_of, decimal_of};

verus! {

/// The payload of a hello request: a required name and an age that the
/// wire format already confines to the unsigned 8-bit range.
pub struct InputParams {
    name: String,
    age: u8,
}

/// The mathematical content of an `InputParams`.
pub struct InputParamsModel {
    pub name: Seq<char>,
    pub age: u8,
}

impl View for InputParams {
    type V = InputParamsModel;

    closed spec fn view(&self) -> InputParamsModel {
        InputParamsModel { name: self.name@, age: self.age }
    }
}

impl InputParams {
    pub fn new(name: String, age: u8) -> (r: Self)
        ensures
            r@ == (InputParamsModel { name: name@, age }),
    {
        InputParams { name, age }
    }

    pub fn name(&self) -> (r: &String)
        ensures
            r@ == self@.name,
    {
        &self.name
    }

    pub fn age(&self) -> (r: u8)
        ensures
            r == self@.age,
    {
        self.age
    }
}

/// The greeting owed to a payload: the name and the age are carried over
/// verbatim, the age in decimal.
pub open spec fn hello_message(p: InputParamsModel) -> Seq<char> {
    "Hello "@ + p.name + ", age : "@ + dec_of(p.age as nat) + "!"@
}

/// The hello handler's whole computation: pure formatting over an
/// already validated payload, so it cannot fail.
pub fn hello(input: &InputParams) -> (r: String)
    ensures
        r@ == hello_message(input@),
{
    let mut s = String::from_str("Hello ");
    s.append(input.name().as_str());
    s.append(", age : ");
    let d = decimal_of(input.age() as u64);
    s.append(d.as_str());
    s.append("!");
    proof {
        assert(s@ =~= hello_message(input@));
    }
    s
}

/// Classifies a handler outcome by the status it is reported with.
/// Kept with the payload type it accompanies; no handler of the service
/// can currently fail, so only the successful arm is ever produced.
pub enum ParsingError {
    InternalServerError(String),
    Success(String),
}

impl ParsingError {
    /// The status code that each arm is reported with.
    pub open spec fn spec_status(&self) -> u16 {
        match self {
            ParsingError::InternalServerError(_) => 500,
            ParsingError::Success(_) => 200,
        }
    }

    pub fn status(&self) -> (r: u16)
        ensures
            r == self.spec_status(),
    {
        match self {
            ParsingError::InternalServerError(_) => 500,
            ParsingError::Success(_) => 200,
        }
    }

    /// The text carried by either arm.
    pub fn message(&self) -> (r: &String)
        ensures
            r@ == match self {
                ParsingError::InternalServerError(m) => m@,
                ParsingError::Success(m) => m@,
            },
    {
        match self {
            ParsingError::InternalServerError(m) => m,
            ParsingError::Success(m) => m,
        }
    }
}

} // verus!
