//! The identifiers a Journey's record refers to.

use vstd::prelude::*;

use crate::text::{decimal, digit_value, lemma_decimal_reads_back, push_decimal, read_decimal};

verus! {

/// Identifies one Journey.
#[derive(Clone, Copy, Debug, PartialEq, Eq, Structural, Hash)]
pub struct JourneyId(u128);

/// Identifies one execution step of a Journey.
#[derive(Clone, Copy, Debug, PartialEq, Eq, Structural, Hash)]
pub struct ExecutionId(u128);

/// Identifies one Message generation.
#[derive(Clone, Copy, Debug, PartialEq, Eq, Structural, Hash)]
pub struct MessageId(u128);

/// Identifies one Stream.
#[derive(Clone, Copy, Debug, PartialEq, Eq, Structural, Hash)]
pub struct StreamId(u128);

impl View for JourneyId {
    type V = u128;

    closed spec fn view(&self) -> u128 {
        self.0
    }
}

impl View for ExecutionId {
    type V = u128;

    closed spec fn view(&self) -> u128 {
        self.0
    }
}

impl View for MessageId {
    type V = u128;

    closed spec fn view(&self) -> u128 {
        self.0
    }
}

impl View for StreamId {
    type V = u128;

    closed spec fn view(&self) -> u128 {
        self.0
    }
}

/// How a Journey id reads in a message: `JourneyId(` and its number, then `)`.
pub open spec fn journey_id_text(id: u128) -> Seq<char> {
    "JourneyId("@ + decimal(id as nat) + ")"@
}

/// A Journey id reads as `JourneyId(`, then its number in decimal digits
/// that read back as the number, then `)`.
pub proof fn lemma_journey_id_text_reads_back(id: u128)
    ensures
        ({
            let text = journey_id_text(id);
            let digits = text.subrange(10, text.len() - 1);
            &&& text.len() >= 12
            &&& text.subrange(0, 10) == "JourneyId("@
            &&& text.last() == ')'
            &&& forall|i: int| 0 <= i < digits.len() ==> 0 <= #[trigger] digit_value(digits[i]) <= 9
            &&& read_decimal(digits) == id
        }),
{
    reveal_strlit("JourneyId(");
    reveal_strlit(")");
    lemma_decimal_reads_back(id as nat);
    let text = journey_id_text(id);
    let d = decimal(id as nat);
    assert(text.subrange(0, 10) =~= "JourneyId("@);
    assert(text.subrange(10, text.len() - 1) =~= d);
}

impl JourneyId {
    /// An id is its number: two ids are the same exactly when their numbers
    /// are.
    pub proof fn lemma_id_is_its_number(a: Self, b: Self)
        ensures
            (a == b) <==> (a@ == b@),
    {
    }

    /// The Journey id with this number.
    pub fn new(value: u128) -> (id: Self)
        ensures
            id@ == value,
    {
        Self(value)
    }

    /// The number of this id.
    pub fn get(self) -> (value: u128)
        ensures
            value == self@,
    {
        self.0
    }

    /// The id as it reads in a message, such as `JourneyId(7)`.
    pub fn to_debug_string(self) -> (text: String)
        ensures
            text@ == journey_id_text(self@),
    {
        let mut text = "JourneyId(".to_owned();
        push_decimal(&mut text, self.0);
        text.append(")");
        text
    }
}

impl ExecutionId {
    /// An id is its number: two ids are the same exactly when their numbers
    /// are.
    pub proof fn lemma_id_is_its_number(a: Self, b: Self)
        ensures
            (a == b) <==> (a@ == b@),
    {
    }

    /// The execution id with this number.
    pub fn new(value: u128) -> (id: Self)
        ensures
            id@ == value,
    {
        Self(value)
    }

    /// The number of this id.
    pub fn get(self) -> (value: u128)
        ensures
            value == self@,
    {
        self.0
    }
}

impl MessageId {
    /// An id is its number: two ids are the same exactly when their numbers
    /// are.
    pub proof fn lemma_id_is_its_number(a: Self, b: Self)
        ensures
            (a == b) <==> (a@ == b@),
    {
    }

    /// The message id with this number.
    pub fn new(value: u128) -> (id: Self)
        ensures
            id@ == value,
    {
        Self(value)
    }

    /// The number of this id.
    pub fn get(self) -> (value: u128)
        ensures
            value == self@,
    {
        self.0
    }
}

impl StreamId {
    /// An id is its number: two ids are the same exactly when their numbers
    /// are.
    pub proof fn lemma_id_is_its_number(a: Self, b: Self)
        ensures
            (a == b) <==> (a@ == b@),
    {
    }

    /// The stream id with this number.
    pub fn new(value: u128) -> (id: Self)
        ensures
            id@ == value,
    {
        Self(value)
    }

    /// The number of this id.
    pub fn get(self) -> (value: u128)
        ensures
            value == self@,
    {
        self.0
    }
}

} // verus!
