//! The parts of a belt conveyor and the order in which they make up the
//! conveyor assembly: two side rails, the drive and idler rollers, the belt,
//! the cross-braces, the optional support legs and the motor.
//!
//! Dimensions and placements are measured in floating-point millimetres and
//! are computed where the assembly is built; this module fixes which parts
//! exist, how they are named and in which order they appear.

use vstd::prelude::*;
use crate::text::{decimal, lemma_decimal_injective, lemma_decimal_nonempty, push_decimal};

verus! {

/// One part of a belt conveyor. Numbered parts count from 1.
#[derive(Debug, Clone, Copy, PartialEq, Eq, Structural)]
pub enum ConveyorPart {
    LeftRail,
    RightRail,
    DriveRoller,
    IdlerRoller,
    Belt,
    CrossBrace(usize),
    LegPost(usize),
    FootPad(usize),
    MotorMountPlate,
    MotorBody,
}

/// The five parts that every conveyor has before its braces.
pub open spec fn core_parts() -> Seq<ConveyorPart> {
    seq![
        ConveyorPart::LeftRail,
        ConveyorPart::RightRail,
        ConveyorPart::DriveRoller,
        ConveyorPart::IdlerRoller,
        ConveyorPart::Belt,
    ]
}

/// Cross-braces `1..=n`, in order.
pub open spec fn brace_parts(n: nat) -> Seq<ConveyorPart> {
    Seq::new(n, |i: int| ConveyorPart::CrossBrace((i + 1) as usize))
}

/// The four support legs, each a post followed by its foot pad, when the
/// conveyor stands on legs; nothing otherwise.
pub open spec fn leg_parts(support_legs: bool) -> Seq<ConveyorPart> {
    if support_legs {
        seq![
            ConveyorPart::LegPost(1),
            ConveyorPart::FootPad(1),
            ConveyorPart::LegPost(2),
            ConveyorPart::FootPad(2),
            ConveyorPart::LegPost(3),
            ConveyorPart::FootPad(3),
            ConveyorPart::LegPost(4),
            ConveyorPart::FootPad(4),
        ]
    } else {
        Seq::empty()
    }
}

/// The motor mount plate followed by the motor body.
pub open spec fn motor_parts() -> Seq<ConveyorPart> {
    seq![ConveyorPart::MotorMountPlate, ConveyorPart::MotorBody]
}

/// A conveyor has one cross-brace per started 500 mm of length, and at
/// least one: `spans` is that count of started spans.
pub open spec fn brace_count(spans: nat) -> nat {
    if spans == 0 {
        1
    } else {
        spans
    }
}

/// The parts of a conveyor, in assembly order.
pub open spec fn layout(spans: nat, support_legs: bool) -> Seq<ConveyorPart> {
    core_parts() + brace_parts(brace_count(spans)) + leg_parts(support_legs) + motor_parts()
}

/// The name under which a part appears in the assembly.
pub open spec fn part_name(part: ConveyorPart) -> Seq<char> {
    match part {
        ConveyorPart::LeftRail => "left_rail"@,
        ConveyorPart::RightRail => "right_rail"@,
        ConveyorPart::DriveRoller => "drive_roller"@,
        ConveyorPart::IdlerRoller => "idler_roller"@,
        ConveyorPart::Belt => "belt"@,
        ConveyorPart::CrossBrace(k) => "cross_brace_"@ + decimal(k as nat),
        ConveyorPart::LegPost(k) => "leg_post_"@ + decimal(k as nat),
        ConveyorPart::FootPad(k) => "foot_pad_"@ + decimal(k as nat),
        ConveyorPart::MotorMountPlate => "motor_mount_plate"@,
        ConveyorPart::MotorBody => "motor_body"@,
    }
}

/// The name of the whole conveyor assembly.
pub open spec fn assembly_name_spec() -> Seq<char> {
    "belt_conveyor"@
}

/// The name of the whole conveyor assembly, `belt_conveyor`.
pub fn conveyor_assembly_name() -> (name: String)
    ensures
        name@ == assembly_name_spec(),
{
    String::from_str("belt_conveyor")
}

impl ConveyorPart {
    /// The name under which this part appears in the assembly, such as
    /// `left_rail` or `cross_brace_2`.
    pub fn name(&self) -> (name: String)
        ensures
            name@ == part_name(*self),
    {
        match self {
            ConveyorPart::LeftRail => String::from_str("left_rail"),
            ConveyorPart::RightRail => String::from_str("right_rail"),
            ConveyorPart::DriveRoller => String::from_str("drive_roller"),
            ConveyorPart::IdlerRoller => String::from_str("idler_roller"),
            ConveyorPart::Belt => String::from_str("belt"),
            ConveyorPart::CrossBrace(k) => {
                let mut name = String::from_str("cross_brace_");
                push_decimal(&mut name, *k as u64);
                name
            },
            ConveyorPart::LegPost(k) => {
                let mut name = String::from_str("leg_post_");
                push_decimal(&mut name, *k as u64);
                name
            },
            ConveyorPart::FootPad(k) => {
                let mut name = String::from_str("foot_pad_");
                push_decimal(&mut name, *k as u64);
                name
            },
            ConveyorPart::MotorMountPlate => String::from_str("motor_mount_plate"),
            ConveyorPart::MotorBody => String::from_str("motor_body"),
        }
    }
}

/// The parts of a conveyor in assembly order: the five core parts, then
/// `max(spans, 1)` cross-braces, then the four legs when `support_legs`
/// holds, then the motor mount plate and the motor body.
pub fn conveyor_layout(spans: usize, support_legs: bool) -> (parts: Vec<ConveyorPart>)
    ensures
        parts@ == layout(spans as nat, support_legs),
{
    let mut parts: Vec<ConveyorPart> = Vec::new();
    parts.push(ConveyorPart::LeftRail);
    parts.push(ConveyorPart::RightRail);
    parts.push(ConveyorPart::DriveRoller);
    parts.push(ConveyorPart::IdlerRoller);
    parts.push(ConveyorPart::Belt);
    assert(parts@ == core_parts());

    let braces: usize = if spans == 0 { 1 } else { spans };
    let mut i: usize = 0;
    while i < braces
        invariant
            i <= braces,
            braces == brace_count(spans as nat),
            parts@ == core_parts() + brace_parts(i as nat),
        decreases braces - i,
    {
        parts.push(ConveyorPart::CrossBrace(i + 1));
        i = i + 1;
        assert(parts@ =~= core_parts() + brace_parts(i as nat));
    }

    if support_legs {
        let mut k: usize = 1;
        while k <= 4
            invariant
                1 <= k <= 5,
                parts@ == core_parts() + brace_parts(braces as nat) + leg_parts(true).take(
                    2 * (k - 1),
                ),
            decreases 5 - k,
        {
            parts.push(ConveyorPart::LegPost(k));
            parts.push(ConveyorPart::FootPad(k));
            k = k + 1;
            assert(parts@ =~= core_parts() + brace_parts(braces as nat) + leg_parts(true).take(
                2 * (k - 1),
            ));
        }
        assert(leg_parts(true).take(8) =~= leg_parts(true));
    } else {
        assert(parts@ =~= core_parts() + brace_parts(braces as nat) + leg_parts(false));
    }

    parts.push(ConveyorPart::MotorMountPlate);
    parts.push(ConveyorPart::MotorBody);
    assert(parts@ =~= layout(spans as nat, support_legs));
    parts
}

/// A conveyor has its five core parts, its cross-braces, eight leg parts
/// when it stands on legs, and the two motor parts.
pub proof fn lemma_layout_len(spans: nat, support_legs: bool)
    ensures
        layout(spans, support_legs).len() == 7 + brace_count(spans) + if support_legs {
            8int
        } else {
            0int
        },
{
}

/// A conveyor has one cross-brace per started span of 500 mm, and at least
/// one: braces numbered 1 to `max(spans, 1)` and no others, so that without
/// legs it has `7 + max(spans, 1)` parts in all.
pub proof fn lemma_cross_braces(spans: usize, support_legs: bool)
    ensures
        ({
            let l = layout(spans as nat, support_legs);
            let m = if spans == 0 {
                1int
            } else {
                spans as int
            };
            &&& l.len() == 7 + m + if support_legs {
                8int
            } else {
                0
            }
            &&& forall|k: usize| 1 <= k <= m ==> l.contains(ConveyorPart::CrossBrace(k))
            &&& forall|k: usize| l.contains(ConveyorPart::CrossBrace(k)) ==> 1 <= k <= m
        }),
{
    let l = layout(spans as nat, support_legs);
    let m = brace_count(spans as nat) as int;
    assert forall|k: usize| 1 <= k <= m implies l.contains(ConveyorPart::CrossBrace(k)) by {
        lemma_layout_index(spans, support_legs, 4 + k);
        assert(l[4 + k] == ConveyorPart::CrossBrace(k));
    }
    assert forall|k: usize| l.contains(ConveyorPart::CrossBrace(k)) implies 1 <= k <= m by {
        let j = choose|j: int| 0 <= j < l.len() && l[j] == ConveyorPart::CrossBrace(k);
        lemma_layout_index(spans, support_legs, j);
        if support_legs && 5 + m <= j < 13 + m {
            let legs = leg_parts(true);
            let a = j - 5 - m;
            assert(legs[a] is LegPost || legs[a] is FootPad) by {
                assert(legs[0] == ConveyorPart::LegPost(1));
                assert(legs[1] == ConveyorPart::FootPad(1));
                assert(legs[2] == ConveyorPart::LegPost(2));
                assert(legs[3] == ConveyorPart::FootPad(2));
                assert(legs[4] == ConveyorPart::LegPost(3));
                assert(legs[5] == ConveyorPart::FootPad(3));
                assert(legs[6] == ConveyorPart::LegPost(4));
                assert(legs[7] == ConveyorPart::FootPad(4));
            }
        }
    }
}

/// Support legs only add parts: without them the conveyor has exactly eight
/// parts fewer, and every conveyor has at least eight parts.
pub proof fn lemma_legs_add_parts(spans: nat)
    ensures
        layout(spans, false).len() + 8 == layout(spans, true).len(),
        layout(spans, false).len() < layout(spans, true).len(),
        layout(spans, false).len() >= 8,
{
}

/// A leg post or a foot pad.
pub open spec fn is_leg_part(part: ConveyorPart) -> bool {
    part is LegPost || part is FootPad
}

/// Keeping the elements of `s` that pass `keep` leaves all of `s` when all
/// pass, and nothing when none does.
proof fn lemma_filter_all_or_none(s: Seq<ConveyorPart>, keep: spec_fn(ConveyorPart) -> bool)
    ensures
        (forall|i: int| 0 <= i < s.len() ==> keep(#[trigger] s[i])) ==> s.filter(keep) == s,
        (forall|i: int| 0 <= i < s.len() ==> !keep(#[trigger] s[i])) ==> s.filter(keep)
            == Seq::<ConveyorPart>::empty(),
    decreases s.len(),
{
    reveal(Seq::filter);
    if s.len() > 0 {
        lemma_filter_all_or_none(s.drop_last(), keep);
        if forall|i: int| 0 <= i < s.len() ==> keep(#[trigger] s[i]) {
            assert(forall|i: int| 0 <= i < s.drop_last().len() ==> keep(#[trigger] s.drop_last()[i]));
            assert(s.drop_last().push(s.last()) =~= s);
        }
        if forall|i: int| 0 <= i < s.len() ==> !keep(#[trigger] s[i]) {
            assert(forall|i: int| 0 <= i < s.drop_last().len() ==> !keep(#[trigger] s.drop_last()[i]));
        }
    }
}

/// Support legs only add parts: the layout with legs is the layout without
/// them with the eight leg parts put in after the cross-braces, and taking
/// the leg posts and foot pads out of it gives back the layout without legs.
pub proof fn lemma_legs_only_add_parts(spans: nat)
    ensures
        layout(spans, true) == layout(spans, false).take(5 + brace_count(spans) as int)
            + leg_parts(true) + layout(spans, false).skip(5 + brace_count(spans) as int),
        layout(spans, true).filter(|p: ConveyorPart| !is_leg_part(p)) == layout(spans, false),
{
    let n = brace_count(spans);
    let head = core_parts() + brace_parts(n);
    let without = layout(spans, false);
    assert(without =~= head + motor_parts());
    assert(without.take(5 + n as int) =~= head);
    assert(without.skip(5 + n as int) =~= motor_parts());
    assert(layout(spans, true) =~= (head + leg_parts(true)) + motor_parts());
    lemma_filter_out_legs(head, motor_parts());
}

/// Taking the leg parts out of `head`, then the legs, then `tail`, where
/// neither `head` nor `tail` holds a leg part, leaves `head` then `tail`.
proof fn lemma_filter_out_legs(head: Seq<ConveyorPart>, tail: Seq<ConveyorPart>)
    requires
        forall|i: int| 0 <= i < head.len() ==> !is_leg_part(#[trigger] head[i]),
        forall|i: int| 0 <= i < tail.len() ==> !is_leg_part(#[trigger] tail[i]),
    ensures
        ((head + leg_parts(true)) + tail).filter(|p: ConveyorPart| !is_leg_part(p)) == head
            + tail,
{
    let keep = |p: ConveyorPart| !is_leg_part(p);
    let legs = leg_parts(true);
    assert forall|i: int| 0 <= i < legs.len() implies !keep(#[trigger] legs[i]) by {
        assert(is_leg_part(legs[i]));
    }
    lemma_filter_all_or_none(head, keep);
    lemma_filter_all_or_none(legs, keep);
    lemma_filter_all_or_none(tail, keep);
    Seq::filter_distributes_over_add(head, legs, keep);
    Seq::filter_distributes_over_add(head + legs, tail, keep);
    assert(head.filter(keep) + legs.filter(keep) =~= head);
}

/// Every conveyor starts with the two rails, the two rollers and the belt,
/// and ends with the motor mount plate and the motor body.
pub proof fn lemma_layout_frame_and_motor(spans: nat, support_legs: bool)
    ensures
        layout(spans, support_legs).take(5) == core_parts(),
        layout(spans, support_legs).skip(layout(spans, support_legs).len() - 2) == motor_parts(),
{
    let l = layout(spans, support_legs);
    assert(l.take(5) =~= core_parts());
    assert(l.skip(l.len() - 2) =~= motor_parts());
}

/// A conveyor has leg posts and foot pads exactly when it stands on legs,
/// and then four of each.
pub proof fn lemma_legs_iff_support(spans: nat, support_legs: bool)
    ensures
        (exists|i: int|
            0 <= i < layout(spans, support_legs).len() && (#[trigger] layout(
                spans,
                support_legs,
            )[i] is LegPost || layout(spans, support_legs)[i] is FootPad)) <==> support_legs,
        support_legs ==> forall|k: usize|
            1 <= k <= 4 ==> layout(spans, support_legs).contains(ConveyorPart::LegPost(k))
                && layout(spans, support_legs).contains(ConveyorPart::FootPad(k)),
{
    let l = layout(spans, support_legs);
    let n = brace_count(spans);
    if support_legs {
        assert(l[5 + n as int] == ConveyorPart::LegPost(1));
        assert forall|k: usize| 1 <= k <= 4 implies l.contains(ConveyorPart::LegPost(k))
            && l.contains(ConveyorPart::FootPad(k)) by {
            let j: int = 5 + n + 2 * (k - 1);
            assert(l[j] == ConveyorPart::LegPost(k));
            assert(l[j + 1] == ConveyorPart::FootPad(k));
        }
    } else {
        assert forall|i: int| 0 <= i < l.len() implies !(#[trigger] l[i] is LegPost || l[i] is FootPad) by {
            if i < 5 {
            } else if i < 5 + n {
                assert(l[i] == brace_parts(n)[i - 5]);
            } else {
            }
        }
    }
}

/// Distinct parts carry distinct names.
pub proof fn lemma_part_name_injective(p: ConveyorPart, q: ConveyorPart)
    requires
        p != q,
    ensures
        part_name(p) != part_name(q),
{
    reveal_strlit("left_rail");
    reveal_strlit("right_rail");
    reveal_strlit("drive_roller");
    reveal_strlit("idler_roller");
    reveal_strlit("belt");
    reveal_strlit("cross_brace_");
    reveal_strlit("leg_post_");
    reveal_strlit("foot_pad_");
    reveal_strlit("motor_mount_plate");
    reveal_strlit("motor_body");
    let a = part_name(p);
    let b = part_name(q);
    if a == b {
        match (p, q) {
            (ConveyorPart::CrossBrace(k), ConveyorPart::CrossBrace(m)) => {
                assert(a.skip(12) =~= decimal(k as nat));
                assert(b.skip(12) =~= decimal(m as nat));
                lemma_decimal_injective(k as nat, m as nat);
            },
            (ConveyorPart::LegPost(k), ConveyorPart::LegPost(m)) => {
                assert(a.skip(9) =~= decimal(k as nat));
                assert(b.skip(9) =~= decimal(m as nat));
                lemma_decimal_injective(k as nat, m as nat);
            },
            (ConveyorPart::FootPad(k), ConveyorPart::FootPad(m)) => {
                assert(a.skip(9) =~= decimal(k as nat));
                assert(b.skip(9) =~= decimal(m as nat));
                lemma_decimal_injective(k as nat, m as nat);
            },
            _ => {
                assert(a[0] == b[0]);
                assert(a[2] == b[2]);
                assert(a[6] == b[6]);
                assert(a.len() == b.len());
            },
        }
    }
}

/// Where each part of a conveyor stands: core parts, then braces, then
/// legs, then the motor.
proof fn lemma_layout_index(spans: usize, support_legs: bool, i: int)
    requires
        0 <= i < layout(spans as nat, support_legs).len(),
    ensures
        ({
            let l = layout(spans as nat, support_legs);
            let n = brace_count(spans as nat) as int;
            let m = leg_parts(support_legs).len() as int;
            &&& i < 5 ==> l[i] == core_parts()[i]
            &&& 5 <= i < 5 + n ==> l[i] == ConveyorPart::CrossBrace((i - 4) as usize)
            &&& 5 + n <= i < 5 + n + m ==> l[i] == leg_parts(support_legs)[i - 5 - n]
            &&& 5 + n + m <= i ==> l[i] == motor_parts()[i - 5 - n - m]
        }),
{
}

/// No two parts of a conveyor are the same part.
pub proof fn lemma_parts_distinct(spans: usize, support_legs: bool)
    ensures
        forall|i: int, j: int|
            0 <= i < j < layout(spans as nat, support_legs).len() ==> #[trigger] layout(
                spans as nat,
                support_legs,
            )[i] != #[trigger] layout(spans as nat, support_legs)[j],
{
    let l = layout(spans as nat, support_legs);
    let n = brace_count(spans as nat) as int;
    let legs = leg_parts(support_legs);
    assert forall|i: int, j: int| 0 <= i < j < l.len() implies #[trigger] l[i] != #[trigger] l[j] by {
        lemma_layout_index(spans, support_legs, i);
        lemma_layout_index(spans, support_legs, j);
        if 5 + n <= i && j < 5 + n + legs.len() {
            let a = i - 5 - n;
            let b = j - 5 - n;
            assert(0 <= a < b < 8);
            assert(legs[a] != legs[b]) by {
                assert(legs[0] == ConveyorPart::LegPost(1));
                assert(legs[1] == ConveyorPart::FootPad(1));
                assert(legs[2] == ConveyorPart::LegPost(2));
                assert(legs[3] == ConveyorPart::FootPad(2));
                assert(legs[4] == ConveyorPart::LegPost(3));
                assert(legs[5] == ConveyorPart::FootPad(3));
                assert(legs[6] == ConveyorPart::LegPost(4));
                assert(legs[7] == ConveyorPart::FootPad(4));
            }
        }
    }
}

/// No two parts of a conveyor share a name.
pub proof fn lemma_part_names_distinct(spans: usize, support_legs: bool)
    ensures
        forall|i: int, j: int|
            0 <= i < j < layout(spans as nat, support_legs).len() ==> part_name(
                #[trigger] layout(spans as nat, support_legs)[i],
            ) != part_name(#[trigger] layout(spans as nat, support_legs)[j]),
{
    let l = layout(spans as nat, support_legs);
    lemma_parts_distinct(spans, support_legs);
    assert forall|i: int, j: int| 0 <= i < j < l.len() implies part_name(#[trigger] l[i])
        != part_name(#[trigger] l[j]) by {
        lemma_part_name_injective(l[i], l[j]);
    }
}

} // verus!
