use vstd::prelude::*;

verus! {

/// What chrono prints for the UTC instant that lies `secs` whole seconds and
/// `nanos` nanoseconds after the Unix epoch; `None` where chrono has no
/// such instant.
pub uninterp spec fn utc_display(secs: i64, nanos: u32) -> Option<Seq<char>>;

/// `DateTime::from_timestamp`, then `Display` on the instant it made.
#[verifier::external_body]
fn display_utc(secs: i64, nanos: u32) -> (r: Option<String>)
    ensures
        r is Some <==> utc_display(secs, nanos) is Some,
        r is Some ==> r->0@ == utc_display(secs, nanos)->0,
{
    match chrono::DateTime::from_timestamp(secs, nanos) {
        Some(t) => Some(t.to_string()),
        None => None,
    }
}

/// A UTC instant, held as seconds and nanoseconds since the Unix epoch.
#[derive(Clone, Copy, Debug)]
pub struct Timestamp {
    secs: i64,
    nanos: u32,
}

impl Timestamp {
    #[verifier::type_invariant]
    spec fn is_instant(self) -> bool {
        utc_display(self.secs, self.nanos) is Some
    }

    /// Whole seconds since the Unix epoch.
    pub closed spec fn spec_secs(&self) -> i64 {
        self.secs
    }

    /// Nanoseconds since the last whole second.
    pub closed spec fn spec_nanos(&self) -> u32 {
        self.nanos
    }

    /// The instant at `secs` seconds and `nanos` nanoseconds after the Unix
    /// epoch, where there is one.
    pub fn new(secs: i64, nanos: u32) -> (r: Option<Timestamp>)
        ensures
            r is Some <==> utc_display(secs, nanos) is Some,
            r is Some ==> r->0.spec_secs() == secs && r->0.spec_nanos() == nanos,
    {
        match display_utc(secs, nanos) {
            Some(_) => Some(Timestamp { secs, nanos }),
            None => None,
        }
    }

    #[verifier::when_used_as_spec(spec_secs)]
    pub fn secs(&self) -> (r: i64)
        ensures
            r == self.spec_secs(),
    {
        self.secs
    }

    #[verifier::when_used_as_spec(spec_nanos)]
    pub fn nanos(&self) -> (r: u32)
        ensures
            r == self.spec_nanos(),
    {
        self.nanos
    }

    /// The instant as chrono prints it.
    pub fn render(&self) -> (r: String)
        ensures
            utc_display(self.secs(), self.nanos()) == Some(r@),
    {
        proof {
            use_type_invariant(self);
        }
        match display_utc(self.secs, self.nanos) {
            Some(text) => text,
            None => String::new(),
        }
    }
}

} // verus!
