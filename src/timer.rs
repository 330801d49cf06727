use vstd::prelude::*;

verus! {

/// Declares `std::time::Instant`, so that a timer can hold one; nothing
/// inside it is assumed.
#[verifier::external_type_specification]
#[verifier::external_body]
pub struct ExInstant(std::time::Instant);

/// Relies on `std::time::Instant::now`: it returns some instant; nothing
/// more is assumed of it.
pub assume_specification[ std::time::Instant::now ]() -> std::time::Instant;

/// Measures how long a named piece of work takes.
pub struct Timer {
    start: std::time::Instant,
    name: String,
}

impl Timer {
    pub closed spec fn name_spec(&self) -> Seq<char> {
        self.name@
    }

    /// Starts a timer now.
    pub fn new(name: &str) -> (r: Timer)
        ensures
            r.name_spec() == name@,
    {
        Timer { start: std::time::Instant::now(), name: name.to_owned() }
    }

    pub fn name(&self) -> (r: &str)
        ensures
            r@ == self.name_spec(),
    {
        self.name.as_str()
    }

    pub closed spec fn started_at(&self) -> std::time::Instant {
        self.start
    }

    /// When the timer was started.
    pub fn start(&self) -> (r: std::time::Instant)
        ensures
            r == self.started_at(),
    {
        self.start
    }
}

} // verus!
