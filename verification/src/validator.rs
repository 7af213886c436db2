// Findings of the first-generation card checks and their report: errors
// first, then warnings, each list in the order the checks found them.

use vstd::prelude::*;
use crate::v2::text::{digits, push_digits, push_str, string_from};

verus! {

/// How serious a finding is.
#[derive(Debug, Clone, Copy, PartialEq, Eq, Structural)]
pub enum Severity {
    /// Must fix: the engine should refuse the card.
    Error,
    /// Should fix: unusual but not illegal.
    Warning,
}

/// One finding on one card.
#[derive(Debug, Clone)]
pub struct ValidationError {
    pub card_name: String,
    pub message: String,
    pub severity: Severity,
}

impl ValidationError {
    /// `[ERROR] card: message` or `[WARN ] card: message`.
    pub fn to_text(&self) -> (r: String)
        ensures
            r@ == finding_text(self@),
    {
        let mut s = String::new();
        match self.severity {
            Severity::Error => push_str(&mut s, "[ERROR] "),
            Severity::Warning => push_str(&mut s, "[WARN ] "),
        }
        push_str(&mut s, self.card_name.as_str());
        push_str(&mut s, ": ");
        push_str(&mut s, self.message.as_str());
        s
    }
}

/// A finding as plain values: the card's name, the message, the severity.
pub type Finding = (Seq<char>, Seq<char>, Severity);

impl View for ValidationError {
    type V = Finding;

    open spec fn view(&self) -> Finding {
        (self.card_name@, self.message@, self.severity)
    }
}

/// The console line of a finding: `[ERROR] card: message` or
/// `[WARN ] card: message`.
pub open spec fn finding_text(f: Finding) -> Seq<char> {
    (if f.2 == Severity::Error { "[ERROR] "@ } else { "[WARN ] "@ }) + f.0 + ": "@ + f.1
}

/// The closing line of a console report: a blank line, then the counts.
pub open spec fn summary_line(errors: nat, warnings: nat) -> Seq<char> {
    "\n"@ + digits(errors, 10) + " error(s), "@ + digits(warnings, 10) + " warning(s)"@
}

/// The findings of a list as plain values.
pub open spec fn findings(v: Seq<ValidationError>) -> Seq<Finding> {
    v.map_values(|e: ValidationError| e@)
}

/// The findings of a check run, split by severity.
#[derive(Debug)]
pub struct ValidationReport {
    pub errors: Vec<ValidationError>,
    pub warnings: Vec<ValidationError>,
}

/// The findings of `s` with severity `sev`, in their order.
pub open spec fn of_severity(s: Seq<Finding>, sev: Severity) -> Seq<Finding>
    decreases s.len(),
{
    if s.len() == 0 {
        Seq::empty()
    } else {
        of_severity(s.drop_last(), sev) + if s.last().2 == sev {
            seq![s.last()]
        } else {
            Seq::empty()
        }
    }
}

/// Every finding goes to exactly one of the two lists: a report made from
/// `n` findings holds `n` errors and warnings together.
pub proof fn law_report_partition(s: Seq<Finding>)
    ensures
        of_severity(s, Severity::Error).len() + of_severity(s, Severity::Warning).len() == s.len(),
    decreases s.len(),
{
    if s.len() > 0 {
        law_report_partition(s.drop_last());
    }
}

impl ValidationReport {
    /// Splits findings into errors and warnings, keeping their order.
    pub fn from(all: Vec<ValidationError>) -> (r: Self)
        ensures
            findings(r.errors@) == of_severity(findings(all@), Severity::Error),
            findings(r.warnings@) == of_severity(findings(all@), Severity::Warning),
    {
        let mut errors: Vec<ValidationError> = Vec::new();
        let mut warnings: Vec<ValidationError> = Vec::new();
        let mut i: usize = 0;
        while i < all.len()
            invariant
                i <= all@.len(),
                findings(errors@) == of_severity(findings(all@).take(i as int), Severity::Error),
                findings(warnings@) == of_severity(findings(all@).take(i as int), Severity::Warning),
            decreases all.len() - i,
        {
            proof {
                assert(findings(all@).take(i + 1).drop_last() =~= findings(all@).take(i as int));
            }
            let e = &all[i];
            let copy = ValidationError { card_name: e.card_name.clone(), message: e.message.clone(), severity: e.severity };
            proof {
                assert(copy.card_name@ == e.card_name@ && copy.message@ == e.message@);
            }
            let ghost before_e = findings(errors@);
            let ghost before_w = findings(warnings@);
            proof {
                assert(findings(all@).take(i + 1).last() == copy@);
            }
            if e.severity == Severity::Error {
                errors.push(copy);
                proof {
                    assert(findings(errors@) =~= before_e + seq![copy@]);
                    assert(findings(warnings@) =~= before_w + Seq::<Finding>::empty());
                }
            } else {
                warnings.push(copy);
                proof {
                    assert(findings(warnings@) =~= before_w + seq![copy@]);
                    assert(findings(errors@) =~= before_e + Seq::<Finding>::empty());
                }
            }
            i += 1;
        }
        proof {
            assert(findings(all@).take(all@.len() as int) =~= findings(all@));
        }
        ValidationReport { errors, warnings }
    }

    /// Whether the report holds no error (warnings allowed).
    pub fn is_clean(&self) -> (r: bool)
        ensures
            r == (self.errors@.len() == 0),
    {
        self.errors.len() == 0
    }

    /// The lines a console report prints: each error, then each warning,
    /// then a blank line and the counts; or one line saying all is valid.
    pub fn lines(&self) -> (r: Vec<String>)
        ensures
            self.errors@.len() == 0 && self.warnings@.len() == 0 ==> r@.len() == 1
                && r@[0]@ == "✓ All cards valid."@,
            !(self.errors@.len() == 0 && self.warnings@.len() == 0) ==> {
                &&& r@.len() == self.errors@.len() + self.warnings@.len() + 1
                &&& forall|i: int| 0 <= i < self.errors@.len() ==> #[trigger] r@[i]@ == finding_text(self.errors@[i]@)
                &&& forall|j: int| 0 <= j < self.warnings@.len() ==> #[trigger] r@[self.errors@.len() as int + j]@
                    == finding_text(self.warnings@[j]@)
                &&& r@[(self.errors@.len() + self.warnings@.len()) as int]@ == summary_line(
                    self.errors@.len(),
                    self.warnings@.len(),
                )
            },
    {
        let mut out: Vec<String> = Vec::new();
        if self.errors.len() == 0 && self.warnings.len() == 0 {
            out.push(string_from("✓ All cards valid."));
            return out;
        }
        let mut i: usize = 0;
        while i < self.errors.len()
            invariant
                i <= self.errors@.len(),
                out@.len() == i,
                forall|k: int| 0 <= k < i ==> #[trigger] out@[k]@ == finding_text(self.errors@[k]@),
            decreases self.errors.len() - i,
        {
            out.push(self.errors[i].to_text());
            i += 1;
        }
        let mut j: usize = 0;
        while j < self.warnings.len()
            invariant
                j <= self.warnings@.len(),
                out@.len() == self.errors@.len() + j,
                forall|k: int| 0 <= k < self.errors@.len() ==> #[trigger] out@[k]@ == finding_text(self.errors@[k]@),
                forall|k: int| 0 <= k < j ==> #[trigger] out@[self.errors@.len() as int + k]@ == finding_text(
                    self.warnings@[k]@,
                ),
            decreases self.warnings.len() - j,
        {
            out.push(self.warnings[j].to_text());
            j += 1;
        }
        let mut s = string_from("\n");
        push_digits(&mut s, self.errors.len() as u64, 10);
        push_str(&mut s, " error(s), ");
        push_digits(&mut s, self.warnings.len() as u64, 10);
        push_str(&mut s, " warning(s)");
        out.push(s);
        out
    }
}

} // verus!
