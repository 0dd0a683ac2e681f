use vstd::prelude::*;

use crate::todo::{CreateTodo, UpdateTodo};

verus! {

/// The fewest characters a todo's text may have.
pub const MIN_TEXT_LEN: usize = 1;

/// The most characters a todo's text may have.
pub const MAX_TEXT_LEN: usize = 100;

/// A breach of a field rule, found before storage is touched.
#[derive(Clone, Copy, Debug, PartialEq, Eq)]
pub enum Violation {
    /// The text has fewer than `MIN_TEXT_LEN` characters.
    TextEmpty,
    /// The text has more than `MAX_TEXT_LEN` characters.
    TextTooLong,
}

pub open spec fn violation_message(v: Violation) -> Seq<char> {
    match v {
        Violation::TextEmpty => "text must not be empty"@,
        Violation::TextTooLong => "text length exceeds the limit"@,
    }
}

/// The name of the field that every rule of this module concerns.
pub open spec fn text_field() -> Seq<char> {
    "text"@
}

impl Violation {
    /// The name of the field that the violated rule concerns.
    pub fn field(&self) -> (r: &'static str)
        ensures
            r@ == text_field(),
    {
        "text"
    }

    /// The fixed human-readable message of the violated rule.
    pub fn message(&self) -> (r: &'static str)
        ensures
            r@ == violation_message(*self),
    {
        match self {
            Violation::TextEmpty => "text must not be empty",
            Violation::TextTooLong => "text length exceeds the limit",
        }
    }
}

/// The violations of a text, in the order in which the rules are checked.
pub open spec fn text_violations(t: Seq<char>) -> Seq<Violation> {
    (if t.len() < MIN_TEXT_LEN { seq![Violation::TextEmpty] } else { Seq::empty() }) + (if t.len()
        > MAX_TEXT_LEN {
        seq![Violation::TextTooLong]
    } else {
        Seq::empty()
    })
}

/// Whether a text meets every rule.
pub open spec fn text_is_valid(t: Seq<char>) -> bool {
    MIN_TEXT_LEN <= t.len() <= MAX_TEXT_LEN
}

/// Checks a text against every rule and collects what it breaks.
pub fn check_text(t: &str) -> (r: Vec<Violation>)
    ensures
        r@ == text_violations(t@),
        r@.len() == 0 <==> text_is_valid(t@),
{
    let n = t.unicode_len();
    let mut r: Vec<Violation> = Vec::new();
    if n < MIN_TEXT_LEN {
        r.push(Violation::TextEmpty);
    }
    if n > MAX_TEXT_LEN {
        r.push(Violation::TextTooLong);
    }
    assert(r@ =~= text_violations(t@));
    r
}

/// Validates a create payload: `Err` holds every violation, in order.
pub fn validate_create(payload: &CreateTodo) -> (r: Result<(), Vec<Violation>>)
    ensures
        r is Ok <==> text_is_valid(payload.text@),
        match r {
            Ok(_) => true,
            Err(vs) => vs@ == text_violations(payload.text@),
        },
{
    let vs = check_text(payload.text.as_str());
    if vs.len() == 0 {
        Ok(())
    } else {
        Err(vs)
    }
}

/// Validates an update payload: an absent text breaks no rule.
pub fn validate_update(payload: &UpdateTodo) -> (r: Result<(), Vec<Violation>>)
    ensures
        r is Ok <==> match payload@.text {
            Some(t) => text_is_valid(t),
            None => true,
        },
        match r {
            Ok(_) => true,
            Err(vs) => vs@ == text_violations(payload@.text->Some_0),
        },
{
    match &payload.text {
        Some(t) => {
            let vs = check_text(t.as_str());
            if vs.len() == 0 {
                Ok(())
            } else {
                Err(vs)
            }
        },
        None => Ok(()),
    }
}

/// The messages of `vs`, joined with ", ".
pub open spec fn joined_messages(vs: Seq<Violation>) -> Seq<char>
    decreases vs.len(),
{
    if vs.len() == 0 {
        Seq::empty()
    } else if vs.len() == 1 {
        violation_message(vs[0])
    } else {
        joined_messages(vs.drop_last()) + ", "@ + violation_message(vs.last())
    }
}

/// The text of a rejection: `Validation error: [text: m1, m2]`, or
/// `Validation error: []` when nothing was violated.
pub open spec fn validation_report(vs: Seq<Violation>) -> Seq<char> {
    "Validation error: ["@ + (if vs.len() == 0 {
        Seq::empty()
    } else {
        text_field() + ": "@ + joined_messages(vs)
    }) + "]"@
}

/// Renders the violations as the text of a rejection.
pub fn report(vs: &Vec<Violation>) -> (r: String)
    ensures
        r@ == validation_report(vs@),
{
    let mut out = String::from_str("Validation error: [");
    if vs.len() > 0 {
        out.append(vs[0].field());
        out.append(": ");
    }
    let ghost head = out@;
    let mut i: usize = 0;
    while i < vs.len()
        invariant
            i <= vs@.len(),
            out@ == head + joined_messages(vs@.take(i as int)),
        decreases vs@.len() - i,
    {
        let ghost before = out@;
        if i > 0 {
            out.append(", ");
        }
        out.append(vs[i].message());
        proof {
            assert(vs@.take(i as int + 1).drop_last() =~= vs@.take(i as int));
            if i == 0 {
                assert(joined_messages(vs@.take(0)) =~= Seq::<char>::empty());
                assert(out@ =~= head + joined_messages(vs@.take(1)));
            } else {
                assert(out@ =~= head + joined_messages(vs@.take(i as int + 1)));
            }
        }
        i = i + 1;
    }
    out.append("]");
    proof {
        assert(vs@.take(vs@.len() as int) =~= vs@);
        if vs@.len() == 0 {
            assert(joined_messages(vs@.take(0)) =~= Seq::<char>::empty());
        }
        assert(out@ =~= validation_report(vs@));
    }
    out
}

} // verus!
