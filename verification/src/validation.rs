//! Payload validation: which constraints a payload violates, and the text
//! that reports them.

use vstd::prelude::*;
use vstd::string::StringExecFns;
use vstd::string::StrSliceExecFns;
use crate::todo::CreateTodo;
use crate::todo::UpdateTodo;

verus! {

/// The fewest characters a new todo's title may have.
pub const TITLE_MIN_LENGTH: usize = 1;

/// The most characters a new todo's title may have.
pub const TITLE_MAX_LENGTH: usize = 100;

/// One violated constraint, as mathematics: the name of the field and a
/// description of the constraint.
pub struct ViolationData {
    pub field: Seq<char>,
    pub constraint: Seq<char>,
}

/// One violated constraint on one field of a payload.
#[derive(Debug, PartialEq, Eq)]
pub struct Violation {
    field: String,
    constraint: String,
}

impl View for Violation {
    type V = ViolationData;

    closed spec fn view(&self) -> ViolationData {
        ViolationData { field: self.field@, constraint: self.constraint@ }
    }
}

impl Violation {
    /// The violation of `constraint` by the field `field`.
    pub fn new(field: String, constraint: String) -> (res: Self)
        ensures
            res@ == (ViolationData { field: field@, constraint: constraint@ }),
    {
        Self { field, constraint }
    }

    /// The name of the field.
    pub fn field(&self) -> (res: &str)
        ensures
            res@ == self@.field,
    {
        self.field.as_str()
    }

    /// The description of the constraint.
    pub fn constraint(&self) -> (res: &str)
        ensures
            res@ == self@.constraint,
    {
        self.constraint.as_str()
    }
}

/// The line that reports one violation: the field, a colon and a space, the
/// constraint.
pub open spec fn violation_line(v: ViolationData) -> Seq<char> {
    v.field + seq![':', ' '] + v.constraint
}

/// The text that reports a list of violations: one line each, in order, with
/// a line feed between two lines and none at the end.
pub open spec fn violations_text(vs: Seq<ViolationData>) -> Seq<char>
    decreases vs.len(),
{
    if vs.len() == 0 {
        Seq::empty()
    } else if vs.len() == 1 {
        violation_line(vs[0])
    } else {
        violations_text(vs.drop_last()) + seq!['\n'] + violation_line(vs.last())
    }
}

/// Why a payload was rejected: the constraints it violates, in field order.
#[derive(Debug, PartialEq, Eq)]
pub struct ValidationError {
    violations: Vec<Violation>,
}

impl View for ValidationError {
    type V = Seq<ViolationData>;

    closed spec fn view(&self) -> Seq<ViolationData> {
        self.violations@.map_values(|v: Violation| v@)
    }
}

impl ValidationError {
    /// The report of these violations, in this order.
    pub fn new(violations: Vec<Violation>) -> (res: Self)
        ensures
            res@ == violations@.map_values(|v: Violation| v@),
    {
        Self { violations }
    }

    /// How many constraints are violated.
    pub fn len(&self) -> (res: usize)
        ensures
            res == self@.len(),
    {
        self.violations.len()
    }

    /// The violation at position `index`, if there is one.
    pub fn get(&self, index: usize) -> (res: Option<&Violation>)
        ensures
            match res {
                Some(v) => index < self@.len() && v@ == self@[index as int],
                None => index >= self@.len(),
            },
    {
        if index < self.violations.len() {
            Some(&self.violations[index])
        } else {
            None
        }
    }

    /// The report as text, usable as a response body as it stands.
    pub fn message(&self) -> (res: String)
        ensures
            res@ == violations_text(self@),
    {
        let mut out = String::new();
        let n: usize = self.violations.len();
        let mut i: usize = 0;
        while i < n
            invariant
                n == self.violations.len(),
                i <= n,
                out@ == violations_text(self@.take(i as int)),
            decreases n - i,
        {
            proof {
                let upto = self@.take(i + 1);
                assert(upto.drop_last() == self@.take(i as int));
                assert(upto.last() == self.violations[i as int]@);
            }
            if i > 0 {
                out.push('\n');
            }
            out.append(self.violations[i].field.as_str());
            out.push(':');
            out.push(' ');
            out.append(self.violations[i].constraint.as_str());
            i += 1;
        }
        proof {
            assert(self@.take(n as int) == self@);
        }
        out
    }
}

/// A payload that knows its own constraints.
pub trait Validate {
    /// The constraints that this value violates, in field order.
    spec fn violations(&self) -> Seq<ViolationData>;

    /// Checks every constraint: succeeds where none is violated, and
    /// otherwise reports exactly the violated ones.
    fn validate(&self) -> (res: Result<(), ValidationError>)
        ensures
            match res {
                Ok(_) => self.violations().len() == 0,
                Err(e) => self.violations().len() > 0 && e@ == self.violations(),
            },
    ;
}

/// The violation that a title of the wrong length causes.
pub open spec fn title_length_violation() -> ViolationData {
    ViolationData { field: "title"@, constraint: "length must be between 1 and 100"@ }
}

/// Whether a title has a length that a new todo may have.
pub open spec fn title_length_ok(title: Seq<char>) -> bool {
    TITLE_MIN_LENGTH <= title.len() <= TITLE_MAX_LENGTH
}

impl Validate for CreateTodo {
    open spec fn violations(&self) -> Seq<ViolationData> {
        if title_length_ok(self@.title) {
            Seq::empty()
        } else {
            seq![title_length_violation()]
        }
    }

    fn validate(&self) -> (res: Result<(), ValidationError>) {
        let length: usize = self.title().unicode_len();
        if TITLE_MIN_LENGTH <= length && length <= TITLE_MAX_LENGTH {
            Ok(())
        } else {
            let violation = Violation::new(
                String::from_str("title"),
                String::from_str("length must be between 1 and 100"),
            );
            let mut violations: Vec<Violation> = Vec::new();
            violations.push(violation);
            let error = ValidationError::new(violations);
            assert(error@ =~= seq![title_length_violation()]);
            Err(error)
        }
    }
}

impl Validate for UpdateTodo {
    /// An update payload has no required field and no constraint.
    open spec fn violations(&self) -> Seq<ViolationData> {
        Seq::empty()
    }

    fn validate(&self) -> (res: Result<(), ValidationError>) {
        Ok(())
    }
}

} // verus!
