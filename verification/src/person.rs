//! A person record and its one-line rendering.

use vstd::prelude::*;
use vstd::string::StringExecFns;

use crate::decimal::{dec_rep, u64_to_string};

verus! {

/// A person: a name, an address and a date of birth as a
/// day/month/year triple.
#[derive(Debug)]
pub struct Person {
    pub name: String,
    pub address: String,
    pub dob: (u32, u32, u32),
}

/// The rendering of a person: `name (d/m/y) - address`.
pub open spec fn person_rep(name: Seq<char>, dob: (u32, u32, u32), address: Seq<char>) -> Seq<
    char,
> {
    name + " ("@ + dec_rep(dob.0 as int) + "/"@ + dec_rep(dob.1 as int) + "/"@ + dec_rep(
        dob.2 as int,
    ) + ") - "@ + address
}

impl Person {
    pub fn new(name: &str, address: &str, dob: (u32, u32, u32)) -> (p: Person)
        ensures
            p.name@ == name@,
            p.address@ == address@,
            p.dob == dob,
    {
        Person { name: name.to_owned(), address: address.to_owned(), dob }
    }

    /// Renders the person on one line.
    pub fn to_string(&self) -> (s: String)
        ensures
            s@ == person_rep(self.name@, self.dob, self.address@),
    {
        let mut s = self.name.clone();
        s.append(" (");
        let day = u64_to_string(self.dob.0 as u64);
        s.append(day.as_str());
        s.append("/");
        let month = u64_to_string(self.dob.1 as u64);
        s.append(month.as_str());
        s.append("/");
        let year = u64_to_string(self.dob.2 as u64);
        s.append(year.as_str());
        s.append(") - ");
        s.append(self.address.as_str());
        s
    }
}

} // verus!
