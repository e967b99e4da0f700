use vstd::prelude::*;

verus! {

/// A naive (zone-less) date and time, held as its ISO-8601 text
/// (`2024-05-01T12:30:00.125`), which is how it travels on the wire.
#[derive(Clone, Debug, PartialEq, Eq)]
pub struct Timestamp {
    pub iso: String,
}

impl Timestamp {
    pub open spec fn view(&self) -> Seq<char> {
        self.iso@
    }

    pub fn from_iso(iso: String) -> (r: Timestamp)
        ensures
            r@ == iso@,
    {
        Timestamp { iso }
    }
}

/// Relies on chrono's `Utc::now().naive_utc()` and its `Debug` format, which
/// writes the ISO-8601 text of the current UTC time. The time depends on the
/// clock, so nothing is promised of the text.
#[verifier::external_body]
fn utc_now_iso() -> (r: String) {
    format!("{:?}", chrono::Utc::now().naive_utc())
}

/// The current UTC time, without a zone.
pub fn now() -> (r: Timestamp) {
    Timestamp::from_iso(utc_now_iso())
}

} // verus!
