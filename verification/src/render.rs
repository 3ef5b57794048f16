//! Textual rendering of identities, statuses and records.
//!
//! Each type gets a `to_text` method whose result is pinned down, to
//! the character, by a spec function over the type's view.

use vstd::prelude::*;
use vstd::string::StringExecFns;
use crate::data::{Status, Ticket, TicketId, TicketView};

verus! {

/// The character for one decimal digit.
pub open spec fn decimal_digit(d: int) -> char {
    if d == 0 {
        '0'
    } else if d == 1 {
        '1'
    } else if d == 2 {
        '2'
    } else if d == 3 {
        '3'
    } else if d == 4 {
        '4'
    } else if d == 5 {
        '5'
    } else if d == 6 {
        '6'
    } else if d == 7 {
        '7'
    } else if d == 8 {
        '8'
    } else {
        '9'
    }
}

/// The usual base-ten rendering of a non-negative number, most
/// significant digit first and without leading zeroes (zero itself
/// rendered as a single digit).
pub open spec fn spec_decimal(n: int) -> Seq<char>
    decreases n,
{
    if n < 0 {
        Seq::empty()
    } else if n < 10 {
        seq![decimal_digit(n)]
    } else {
        spec_decimal(n / 10) + seq![decimal_digit(n % 10)]
    }
}

/// The rendering of an identity: the word `TicketId` around the
/// decimal value.
pub open spec fn spec_id_text(id: TicketId) -> Seq<char> {
    "TicketId("@ + spec_decimal(id.0 as int) + ")"@
}

/// The rendering of a status: its variant name.
pub open spec fn spec_status_text(s: Status) -> Seq<char> {
    match s {
        Status::ToDo => "ToDo"@,
        Status::InProgress => "InProgress"@,
        Status::Done => "Done"@,
    }
}

/// The rendering of a whole record: every field, labelled.
pub open spec fn spec_ticket_text(v: TicketView) -> Seq<char> {
    "Ticket { id: "@ + spec_id_text(v.id) + ", title: "@ + v.title + ", description: "@
        + v.description + ", status: "@ + spec_status_text(v.status) + " }"@
}

/// The one-character string for a decimal digit.
fn digit_str(d: u64) -> (r: &'static str)
    requires
        d < 10,
    ensures
        r@ == seq![decimal_digit(d as int)],
{
    proof {
        reveal_strlit("0");
        reveal_strlit("1");
        reveal_strlit("2");
        reveal_strlit("3");
        reveal_strlit("4");
        reveal_strlit("5");
        reveal_strlit("6");
        reveal_strlit("7");
        reveal_strlit("8");
        reveal_strlit("9");
    }
    if d == 0 {
        "0"
    } else if d == 1 {
        "1"
    } else if d == 2 {
        "2"
    } else if d == 3 {
        "3"
    } else if d == 4 {
        "4"
    } else if d == 5 {
        "5"
    } else if d == 6 {
        "6"
    } else if d == 7 {
        "7"
    } else if d == 8 {
        "8"
    } else {
        "9"
    }
}

/// Renders a number in base ten, as `spec_decimal` describes.
pub fn decimal_string(n: u64) -> (r: String)
    ensures
        r@ == spec_decimal(n as int),
{
    if n == 0 {
        let r = String::from_str("0");
        proof {
            reveal_strlit("0");
            assert(r@ =~= spec_decimal(0));
        }
        return r;
    }
    let mut m: u64 = n;
    let mut acc = String::new();
    proof {
        assert(spec_decimal(n as int) =~= spec_decimal(m as int) + acc@);
    }
    while m > 0
        invariant
            m == 0 ==> acc@ =~= spec_decimal(n as int),
            m > 0 ==> spec_decimal(n as int) =~= spec_decimal(m as int) + acc@,
        decreases m,
    {
        let ghost m0: int = m as int;
        let ghost tail: Seq<char> = acc@;
        let d: u64 = m % 10;
        let mut front = String::from_str(digit_str(d));
        front.append(acc.as_str());
        acc = front;
        m = m / 10;
        proof {
            if m0 >= 10 {
                assert(spec_decimal(m0) =~= spec_decimal(m0 / 10) + seq![decimal_digit(m0 % 10)]);
                assert(spec_decimal(m as int) + acc@ =~= (spec_decimal(m0 / 10) + seq![
                    decimal_digit(m0 % 10),
                ]) + tail);
                assert(spec_decimal(n as int) =~= spec_decimal(m as int) + acc@);
            } else {
                assert(spec_decimal(m0) =~= seq![decimal_digit(m0)]);
                assert(acc@ =~= spec_decimal(m0) + tail);
                assert(acc@ =~= spec_decimal(n as int));
            }
        }
    }
    acc
}

impl TicketId {
    /// The text the identity displays as.
    pub fn to_text(&self) -> (r: String)
        ensures
            r@ == spec_id_text(*self),
    {
        let mut s = String::from_str("TicketId(");
        let digits = decimal_string(self.0);
        s.append(digits.as_str());
        s.append(")");
        proof {
            assert(s@ =~= spec_id_text(*self));
        }
        s
    }
}

impl Status {
    /// The text the status displays as: its variant name.
    pub fn to_text(&self) -> (r: String)
        ensures
            r@ == spec_status_text(*self),
    {
        match self {
            Status::ToDo => String::from_str("ToDo"),
            Status::InProgress => String::from_str("InProgress"),
            Status::Done => String::from_str("Done"),
        }
    }
}

impl Ticket {
    /// The text the whole record displays as, every field labelled.
    pub fn to_text(&self) -> (r: String)
        ensures
            r@ == spec_ticket_text(self@),
    {
        let mut s = String::from_str("Ticket { id: ");
        let id_text = self.id.to_text();
        s.append(id_text.as_str());
        s.append(", title: ");
        s.append(self.title.as_str());
        s.append(", description: ");
        s.append(self.description.as_str());
        s.append(", status: ");
        let status_text = self.status.to_text();
        s.append(status_text.as_str());
        s.append(" }");
        proof {
            assert(s@ =~= spec_ticket_text(self@));
        }
        s
    }
}

} // verus!
