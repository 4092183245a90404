//! The phone record: two text fields, three mutators and one accessor.
//!
//! The record is modelled as a pair of character sequences: the phone
//! number first, the phone name second. Every operation's contract is
//! stated over that pair.

use vstd::prelude::*;

verus! {

/// The record's abstract state: `(phone_number, phone_name)`.
pub open spec fn record_empty() -> (Seq<char>, Seq<char>) {
    (Seq::<char>::empty(), Seq::<char>::empty())
}

/// The abstract effect of `set_phone_number`: the number is replaced,
/// the name is untouched.
pub open spec fn record_set_number(s: (Seq<char>, Seq<char>), v: Seq<char>) -> (Seq<char>, Seq<char>) {
    (v, s.1)
}

/// The abstract effect of `set_phone_name`: the name is replaced, the
/// number is untouched.
pub open spec fn record_set_name(s: (Seq<char>, Seq<char>), v: Seq<char>) -> (Seq<char>, Seq<char>) {
    (s.0, v)
}

/// The abstract effect of `reset`: both fields become empty, whatever
/// they held before.
pub open spec fn record_reset(s: (Seq<char>, Seq<char>)) -> (Seq<char>, Seq<char>) {
    record_empty()
}

/// The diagnostic line that `set_phone_number` reports.
pub open spec fn number_log(v: Seq<char>) -> Seq<char> {
    "New phone number "@ + v
}

/// The diagnostic line that `set_phone_name` reports.
pub open spec fn name_log(v: Seq<char>) -> Seq<char> {
    "New phone name "@ + v
}

/// The diagnostic line that `reset` reports.
pub open spec fn reset_log() -> Seq<char> {
    "Reset phone to empty"@
}

/// Relies on alloc's `format!`: the result is the first argument's
/// characters followed by the second argument's characters.
#[verifier::external_body]
fn str_concat(prefix: &str, value: &str) -> (r: String)
    ensures
        r@ == prefix@ + value@,
{
    format!("{}{}", prefix, value)
}

/// A record holding a phone number and a phone name. Both fields are
/// always present; the empty string is the reset value.
pub struct MyPhone {
    phone_number: String,
    phone_name: String,
}

impl View for MyPhone {
    type V = (Seq<char>, Seq<char>);

    closed spec fn view(&self) -> (Seq<char>, Seq<char>) {
        (self.phone_number@, self.phone_name@)
    }
}

impl MyPhone {
    /// A fresh record: both fields empty.
    pub fn new() -> (r: MyPhone)
        ensures
            r@ == record_empty(),
    {
        MyPhone { phone_number: String::new(), phone_name: String::new() }
    }

    /// A record built from its two fields, number first.
    pub fn from_parts(phone_number: String, phone_name: String) -> (r: MyPhone)
        ensures
            r@ == (phone_number@, phone_name@),
    {
        MyPhone { phone_number, phone_name }
    }

    /// Returns a copy of `(phone_number, phone_name)`.
    pub fn get_phone(&self) -> (r: (String, String))
        ensures
            r.0@ == self@.0,
            r.1@ == self@.1,
    {
        (self.phone_number.clone(), self.phone_name.clone())
    }

    /// Replaces the phone number with `new_phone_number`; any string,
    /// the empty one included, is accepted. The phone name is left as
    /// it was. Returns the diagnostic line to report for the change.
    pub fn set_phone_number(&mut self, new_phone_number: String) -> (log: String)
        ensures
            final(self)@ == record_set_number(old(self)@, new_phone_number@),
            log@ == number_log(new_phone_number@),
    {
        self.phone_number = new_phone_number;
        str_concat("New phone number ", self.phone_number.as_str())
    }

    /// Replaces the phone name with `new_phone_name`; any string, the
    /// empty one included, is accepted. The phone number is left as it
    /// was. Returns the diagnostic line to report for the change.
    pub fn set_phone_name(&mut self, new_phone_name: String) -> (log: String)
        ensures
            final(self)@ == record_set_name(old(self)@, new_phone_name@),
            log@ == name_log(new_phone_name@),
    {
        self.phone_name = new_phone_name;
        str_concat("New phone name ", self.phone_name.as_str())
    }

    /// Reset to empty. Sets both fields to the empty string, whatever
    /// they held before. Returns the diagnostic line to report.
    pub fn reset(&mut self) -> (log: String)
        ensures
            final(self)@ == record_reset(old(self)@),
            log@ == reset_log(),
    {
        self.phone_number = String::new();
        self.phone_name = String::new();
        "Reset phone to empty".to_owned()
    }
}

impl Default for MyPhone {
    /// The record's first state: both fields empty.
    fn default() -> (r: MyPhone)
        ensures
            r@ == record_empty(),
    {
        MyPhone::new()
    }
}

/// Law: after `set_phone_number(v)`, reading the record yields `v` as
/// the number and the phone name it held before.
pub proof fn lemma_set_number_then_get(s: (Seq<char>, Seq<char>), v: Seq<char>)
    ensures
        record_set_number(s, v).0 == v,
        record_set_number(s, v).1 == s.1,
{
}

/// Law: after `set_phone_name(v)`, reading the record yields `v` as
/// the name and the phone number it held before.
pub proof fn lemma_set_name_then_get(s: (Seq<char>, Seq<char>), v: Seq<char>)
    ensures
        record_set_name(s, v).0 == s.0,
        record_set_name(s, v).1 == v,
{
}

/// Law: whatever the record held, after `reset` both fields read back
/// empty.
pub proof fn lemma_reset_clears(s: (Seq<char>, Seq<char>))
    ensures
        record_reset(s) == record_empty(),
{
}

/// Law: `reset` is idempotent; a second `reset` leaves exactly the
/// state the first one left.
pub proof fn lemma_reset_idempotent(s: (Seq<char>, Seq<char>))
    ensures
        record_reset(record_reset(s)) == record_reset(s),
{
}

/// Law: the two setters touch different fields, so their order does
/// not matter, and either order yields `(a, b)`.
pub proof fn lemma_set_order_independent(s: (Seq<char>, Seq<char>), a: Seq<char>, b: Seq<char>)
    ensures
        record_set_name(record_set_number(s, a), b) == record_set_number(
            record_set_name(s, b),
            a,
        ),
        record_set_name(record_set_number(s, a), b) == (a, b),
{
}

} // verus!
