use mekanikci::design::layout::{conveyor_assembly_name, conveyor_layout, ConveyorPart};
use mekanikci::design::motor::{nema_body_length, nema_face_size, MotorMount, MotorSpec, NemaFrame};

/// Started 500 mm spans of a conveyor `length_mm` long, as the assembly
/// builder counts them.
fn spans(length_mm: f64) -> usize {
    (length_mm / 500.0).ceil() as usize
}

fn names(length_mm: f64, support_legs: bool) -> Vec<String> {
    conveyor_layout(spans(length_mm), support_legs).iter().map(|p| p.name()).collect()
}

#[test]
fn test_to_cad_model_creates_assembly() {
    assert_eq!(conveyor_assembly_name(), "belt_conveyor");
    // 5 core + 2 cross-braces + 0 legs + 2 motor = 9
    assert_eq!(conveyor_layout(spans(1000.0), false).len(), 9);
}

#[test]
fn test_correct_part_names() {
    let names = names(1000.0, false);
    assert!(names.contains(&"left_rail".to_string()));
    assert!(names.contains(&"right_rail".to_string()));
    assert!(names.contains(&"drive_roller".to_string()));
    assert!(names.contains(&"idler_roller".to_string()));
    assert!(names.contains(&"belt".to_string()));
}

#[test]
fn test_no_legs_with_defaults() {
    for name in names(1000.0, false) {
        assert!(!name.starts_with("leg_"), "unexpected leg part");
    }
}

#[test]
fn test_support_legs_generated() {
    let names = names(1000.0, true);
    for i in 1..=4 {
        assert!(names.contains(&format!("leg_post_{}", i)));
        assert!(names.contains(&format!("foot_pad_{}", i)));
    }
}

#[test]
fn test_cross_braces_generated() {
    let names = names(1000.0, false);
    assert!(names.contains(&"cross_brace_1".to_string()));
    assert!(names.contains(&"cross_brace_2".to_string()));
}

#[test]
fn test_motor_mount_generated() {
    let names = names(1000.0, false);
    assert!(names.contains(&"motor_mount_plate".to_string()));
    assert!(names.contains(&"motor_body".to_string()));
}

#[test]
fn test_motor_mount_side() {
    let motor = MotorSpec { frame: NemaFrame::Nema23, mount: MotorMount::Side };
    assert_eq!(motor.mount, MotorMount::Side);
    let names = names(1000.0, false);
    assert!(names.contains(&"motor_mount_plate".to_string()));
    assert!(names.contains(&"motor_body".to_string()));
    assert_eq!(nema_face_size(&motor.frame), 57);
    assert_eq!(nema_body_length(&motor.frame), 50);
}

#[test]
fn test_motor_mount_end() {
    let motor = MotorSpec { frame: NemaFrame::Nema34, mount: MotorMount::End };
    assert_eq!(motor.mount, MotorMount::End);
    let names = names(1000.0, false);
    assert!(names.contains(&"motor_mount_plate".to_string()));
    assert!(names.contains(&"motor_body".to_string()));
    assert_eq!(nema_face_size(&motor.frame), 86);
    assert_eq!(nema_body_length(&motor.frame), 70);
}

#[test]
fn layout_of_default_conveyor_in_order() {
    let parts = conveyor_layout(2, false);
    assert_eq!(
        parts,
        vec![
            ConveyorPart::LeftRail,
            ConveyorPart::RightRail,
            ConveyorPart::DriveRoller,
            ConveyorPart::IdlerRoller,
            ConveyorPart::Belt,
            ConveyorPart::CrossBrace(1),
            ConveyorPart::CrossBrace(2),
            ConveyorPart::MotorMountPlate,
            ConveyorPart::MotorBody,
        ]
    );
}

#[test]
fn layout_with_legs_interleaves_posts_and_pads() {
    let names = names(2000.0, true);
    assert_eq!(names.len(), 5 + 4 + 8 + 2);
    assert_eq!(
        &names[9..17],
        &["leg_post_1", "foot_pad_1", "leg_post_2", "foot_pad_2", "leg_post_3", "foot_pad_3", "leg_post_4", "foot_pad_4"]
    );
    assert_eq!(names[17], "motor_mount_plate");
    assert_eq!(names[18], "motor_body");
}

#[test]
fn layout_has_at_least_one_brace() {
    let parts = conveyor_layout(0, false);
    assert_eq!(parts.len(), 8);
    assert_eq!(parts[5], ConveyorPart::CrossBrace(1));
}

#[test]
fn legs_add_eight_parts() {
    for spans in [0usize, 1, 2, 7, 20] {
        let without = conveyor_layout(spans, false).len();
        let with = conveyor_layout(spans, true).len();
        assert!(without < with);
        assert_eq!(without + 8, with);
        assert_eq!(without, 7 + spans.max(1));
    }
}

#[test]
fn part_names_are_distinct() {
    let names = names(6000.0, true);
    for i in 0..names.len() {
        for j in (i + 1)..names.len() {
            assert_ne!(names[i], names[j]);
        }
    }
    assert!(names.contains(&"cross_brace_12".to_string()));
}

#[test]
fn numbered_part_names() {
    assert_eq!(ConveyorPart::CrossBrace(10).name(), "cross_brace_10");
    assert_eq!(ConveyorPart::LegPost(3).name(), "leg_post_3");
    assert_eq!(ConveyorPart::FootPad(4).name(), "foot_pad_4");
    assert_eq!(ConveyorPart::CrossBrace(0).name(), "cross_brace_0");
}

#[test]
fn nema_frame_dimensions() {
    assert_eq!(nema_face_size(&NemaFrame::Nema17), 42);
    assert_eq!(nema_body_length(&NemaFrame::Nema17), 40);
    assert_eq!(nema_face_size(&NemaFrame::Nema23), 57);
    assert_eq!(nema_body_length(&NemaFrame::Nema23), 50);
    assert_eq!(nema_face_size(&NemaFrame::Nema34), 86);
    assert_eq!(nema_body_length(&NemaFrame::Nema34), 70);
}

#[test]
fn motor_spec_defaults() {
    let motor = MotorSpec::default();
    assert_eq!(motor.frame, NemaFrame::Nema17);
    assert_eq!(motor.mount, MotorMount::Underneath);
    assert_eq!(NemaFrame::default(), NemaFrame::Nema17);
    assert_eq!(MotorMount::default(), MotorMount::Underneath);
}

#[test]
fn removing_legs_gives_legless_layout() {
    for spans in [0usize, 2, 5] {
        let with: Vec<ConveyorPart> = conveyor_layout(spans, true)
            .into_iter()
            .filter(|p| !matches!(p, ConveyorPart::LegPost(_) | ConveyorPart::FootPad(_)))
            .collect();
        assert_eq!(with, conveyor_layout(spans, false));
    }
}
