//! The design rules that a conveyor specification must meet before a model
//! is built from it: each dimension lies within a range of millimetres.
//!
//! The dimensions themselves are floating-point numbers and are compared
//! where the specification is held; this module fixes the rules, the
//! reports of their violations, and the outcome of a validation.

use vstd::prelude::*;
use crate::text::{decimal, push_decimal};

verus! {

/// A broken design rule: the field that breaks it and why.
#[derive(Debug, Clone)]
pub struct ValidationError {
    pub field: String,
    pub message: String,
}

/// A field of the specification must lie within `min..=max` millimetres.
#[derive(Debug, Clone)]
pub struct FieldRule {
    pub field: String,
    pub min: u32,
    pub max: u32,
}

/// The rules of a conveyor specification, in the order in which they are
/// checked: field name, least and greatest admitted value in millimetres.
pub open spec fn conveyor_rules() -> Seq<(Seq<char>, nat, nat)> {
    seq![
        ("length_mm"@, 100nat, 10000nat),
        ("belt_width_mm"@, 10nat, 2000nat),
        ("roller_diameter_mm"@, 10nat, 200nat),
    ]
}

/// The message that reports a value, written `got`, outside `min..=max`.
pub open spec fn range_message(min: nat, max: nat, got: Seq<char>) -> Seq<char> {
    "must be "@ + decimal(min) + seq!['\u{2013}'] + decimal(max) + ", got "@ + got
}

/// The outcome of a validation that found `errors`.
pub open spec fn outcome(errors: Seq<ValidationError>) -> Result<(), Seq<ValidationError>> {
    if errors.len() == 0 {
        Ok(())
    } else {
        Err(errors)
    }
}

fn rule(field: &str, min: u32, max: u32) -> (r: FieldRule)
    ensures
        r.field@ == field@,
        r.min == min,
        r.max == max,
{
    FieldRule { field: field.to_owned(), min, max }
}

/// The rules of a conveyor specification: the length within 100–10000 mm,
/// the belt width within 10–2000 mm and the roller diameter within
/// 10–200 mm, in that order.
pub fn conveyor_field_rules() -> (rules: Vec<FieldRule>)
    ensures
        rules@.len() == conveyor_rules().len(),
        forall|i: int|
            0 <= i < rules@.len() ==> (#[trigger] rules@[i]).field@ == conveyor_rules()[i].0
                && rules@[i].min == conveyor_rules()[i].1 && rules@[i].max
                == conveyor_rules()[i].2,
{
    let mut rules: Vec<FieldRule> = Vec::new();
    rules.push(rule("length_mm", 100, 10000));
    rules.push(rule("belt_width_mm", 10, 2000));
    rules.push(rule("roller_diameter_mm", 10, 200));
    rules
}

impl FieldRule {
    /// The report that this rule is broken by a value written `got`, such
    /// as `must be 100–10000, got 0` for the length.
    pub fn violation(&self, got: &str) -> (e: ValidationError)
        ensures
            e.field@ == self.field@,
            e.message@ == range_message(self.min as nat, self.max as nat, got@),
    {
        let mut message = String::from_str("must be ");
        push_decimal(&mut message, self.min as u64);
        message.push('\u{2013}');
        push_decimal(&mut message, self.max as u64);
        message.append(", got ");
        message.append(got);
        ValidationError { field: self.field.clone(), message }
    }
}

/// The outcome of a validation: success when no rule was broken, else
/// every violation found, in the order found.
pub fn validation_outcome(errors: Vec<ValidationError>) -> (r: Result<(), Vec<ValidationError>>)
    ensures
        match r {
            Ok(()) => outcome(errors@) == Ok::<(), Seq<ValidationError>>(()),
            Err(found) => outcome(errors@) == Err::<(), Seq<ValidationError>>(found@),
        },
{
    if errors.len() == 0 {
        Ok(())
    } else {
        Err(errors)
    }
}

/// The reports of a validation after the first `k` rules, in rule order:
/// rule `i` is reported, with the value written `shown[i]`, exactly when
/// `broken[i]` holds. Each report is a field name and a message.
pub open spec fn expected_reports(broken: Seq<bool>, shown: Seq<String>, k: int) -> Seq<
    (Seq<char>, Seq<char>),
>
    decreases k,
{
    if k <= 0 {
        Seq::empty()
    } else {
        let earlier = expected_reports(broken, shown, k - 1);
        let rule = conveyor_rules()[k - 1];
        if broken[k - 1] {
            earlier.push((rule.0, range_message(rule.1, rule.2, shown[k - 1]@)))
        } else {
            earlier
        }
    }
}

/// Each rule is reported on its own, exactly when it is broken: there are
/// as many reports as broken rules, the report naming a rule's field is
/// there exactly when that rule is broken and carries the message for the
/// value written for it, and broken rules are reported in rule order.
pub proof fn lemma_reports_follow_broken_rules(broken: Seq<bool>, shown: Seq<String>)
    requires
        broken.len() == 3,
        shown.len() == 3,
    ensures
        ({
            let r = expected_reports(broken, shown, 3);
            &&& r.len() == (if broken[0] {
                1int
            } else {
                0
            }) + (if broken[1] {
                1int
            } else {
                0
            }) + (if broken[2] {
                1int
            } else {
                0
            })
            &&& forall|i: int|
                0 <= i < 3 ==> (broken[i] <==> exists|j: int|
                    0 <= j < r.len() && (#[trigger] r[j]).0 == conveyor_rules()[i].0)
            &&& forall|i: int|
                0 <= i < 3 && broken[i] ==> r.contains(
                    (
                        conveyor_rules()[i].0,
                        range_message(
                            conveyor_rules()[i].1,
                            conveyor_rules()[i].2,
                            shown[i]@,
                        ),
                    ),
                )
            &&& forall|i1: int, i2: int, j1: int, j2: int|
                0 <= i1 < i2 < 3 && 0 <= j1 < r.len() && 0 <= j2 < r.len() && r[j1].0
                    == conveyor_rules()[i1].0 && r[j2].0 == conveyor_rules()[i2].0 ==> j1 < j2
        }),
{
    reveal_strlit("length_mm");
    reveal_strlit("belt_width_mm");
    reveal_strlit("roller_diameter_mm");
    let f0 = conveyor_rules()[0].0;
    let f1 = conveyor_rules()[1].0;
    let f2 = conveyor_rules()[2].0;
    assert(f0[0] != f1[0] && f0[0] != f2[0] && f1[0] != f2[0]);
    assert(f0 != f1 && f0 != f2 && f1 != f2);
    let r0 = expected_reports(broken, shown, 0);
    let r1 = expected_reports(broken, shown, 1);
    let r2 = expected_reports(broken, shown, 2);
    let r = expected_reports(broken, shown, 3);
    assert(r0.len() == 0);
    // Each rule adds its report, if any, after the earlier ones.
    assert forall|j: int| 0 <= j < r.len() implies (#[trigger] r[j]).0 == f0 && broken[0]
        || r[j].0 == f1 && broken[1] || r[j].0 == f2 && broken[2] by {
        if broken[2] && j == r.len() - 1 {
        } else if j < r1.len() {
            assert(r[j] == r1[j]);
        } else {
            assert(r[j] == r2[j]);
        }
    }
    assert forall|i: int| 0 <= i < 3 && broken[i] implies r.contains(
        (
            conveyor_rules()[i].0,
            range_message(conveyor_rules()[i].1, conveyor_rules()[i].2, shown[i]@),
        ),
    ) by {
        if i == 0 {
            assert(r[0] == r1[0]);
        } else if i == 1 {
            assert(r[r1.len() as int] == r2[r1.len() as int]);
        } else {
            assert(r[r.len() - 1] == r.last());
        }
    }
    assert forall|i: int| 0 <= i < 3 implies (broken[i] <==> exists|j: int|
        0 <= j < r.len() && (#[trigger] r[j]).0 == conveyor_rules()[i].0) by {
        if broken[i] {
            let k = if i == 0 {
                0
            } else if i == 1 {
                r1.len() as int
            } else {
                r.len() - 1
            };
            if i == 0 {
                assert(r[0] == r1[0]);
            } else if i == 1 {
                assert(r[k] == r2[k]);
            }
            assert(r[k].0 == conveyor_rules()[i].0);
        }
    }
    assert forall|i1: int, i2: int, j1: int, j2: int|
        0 <= i1 < i2 < 3 && 0 <= j1 < r.len() && 0 <= j2 < r.len() && r[j1].0
            == conveyor_rules()[i1].0 && r[j2].0 == conveyor_rules()[i2].0 implies j1 < j2 by {
        if j1 < r1.len() {
            assert(r[j1] == r1[j1]);
        } else if j1 < r2.len() {
            assert(r[j1] == r2[j1]);
        }
        if j2 < r1.len() {
            assert(r[j2] == r1[j2]);
        } else if j2 < r2.len() {
            assert(r[j2] == r2[j2]);
        }
    }
}

/// `errors` are exactly the reports `expected`, in order.
pub open spec fn reports_match(errors: Seq<ValidationError>, expected: Seq<(Seq<char>, Seq<char>)>) -> bool {
    &&& errors.len() == expected.len()
    &&& forall|i: int|
        0 <= i < errors.len() ==> (#[trigger] errors[i]).field@ == expected[i].0
            && errors[i].message@ == expected[i].1
}

/// Validates a conveyor specification from what was found of each of its
/// ruled fields, in rule order (length, belt width, roller diameter):
/// `broken[i]` says whether the value lies outside rule `i`, and
/// `shown[i]` is how the value is written. Every broken rule is reported,
/// in rule order, and the outcome is success exactly when none is.
pub fn report_violations(broken: &Vec<bool>, shown: &Vec<String>) -> (r: Result<
    (),
    Vec<ValidationError>,
>)
    requires
        broken@.len() == conveyor_rules().len(),
        shown@.len() == conveyor_rules().len(),
    ensures
        match r {
            Ok(()) => expected_reports(broken@, shown@, 3).len() == 0,
            Err(errors) => expected_reports(broken@, shown@, 3).len() > 0 && reports_match(
                errors@,
                expected_reports(broken@, shown@, 3),
            ),
        },
{
    let rules = conveyor_field_rules();
    let mut errors: Vec<ValidationError> = Vec::new();
    let mut i: usize = 0;
    while i < 3
        invariant
            i <= 3,
            broken@.len() == 3,
            shown@.len() == 3,
            rules@.len() == 3,
            forall|j: int|
                0 <= j < rules@.len() ==> (#[trigger] rules@[j]).field@ == conveyor_rules()[j].0
                    && rules@[j].min == conveyor_rules()[j].1 && rules@[j].max
                    == conveyor_rules()[j].2,
            reports_match(errors@, expected_reports(broken@, shown@, i as int)),
        decreases 3 - i,
    {
        if broken[i] {
            let e = rules[i].violation(shown[i].as_str());
            errors.push(e);
        }
        i = i + 1;
    }
    validation_outcome(errors)
}

} // verus!
