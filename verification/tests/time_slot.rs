use calgary_central_library::time_slot::TimeSlot;

#[test]
fn check_add_signed_hours_forward() {
    let before = 0;
    let after = TimeSlot::add_signed_hours(before, 1);
    assert_eq!(after, 1);
}

#[test]
fn check_add_signed_hours_forward_overflow() {
    let before = 23;
    let after = TimeSlot::add_signed_hours(before, 1);
    assert_eq!(after, 0);
}

#[test]
fn check_add_signed_hours_backward() {
    let before = 1;
    let after = TimeSlot::add_signed_hours(before, -1);
    assert_eq!(after, 0);
}

#[test]
fn check_add_signed_hours_backward_overflow() {
    let before = 0;
    let after = TimeSlot::add_signed_hours(before, -1);
    assert_eq!(after, 23);
}

#[test]
fn five_am_is_the_origin() {
    let time_slot = TimeSlot::from_label("5:00 AM").unwrap();
    assert_eq!(time_slot.to_label(), "5:00 AM");
    assert_eq!(time_slot.to_discriminant(), 0);
}

#[test]
fn check_timeslot() {
    let time_slot_a = TimeSlot::from_label("10:00 AM").unwrap();
    assert_eq!(time_slot_a.to_label(), "10:00 AM");
    let time_slot_b = TimeSlot::from_label("10:30 AM").unwrap();
    assert_eq!(time_slot_b.to_label(), "10:30 AM");
    assert!(time_slot_a < time_slot_b);
    let discr_diff = time_slot_b.to_discriminant() - time_slot_a.to_discriminant();
    assert_eq!(discr_diff, 1);
}

#[test]
fn room_check_add_signed_hours_forward() {
    let before = 0;
    let after = TimeSlot::add_signed_hours(before, 1);
    assert_eq!(after, 1);
}

#[test]
fn room_check_add_signed_hours_forward_overflow() {
    let before = 23;
    let after = TimeSlot::add_signed_hours(before, 1);
    assert_eq!(after, 0);
}

#[test]
fn room_check_add_signed_hours_backward() {
    let before = 1;
    let after = TimeSlot::add_signed_hours(before, -1);
    assert_eq!(after, 0);
}

#[test]
fn room_check_add_signed_hours_backward_overflow() {
    let before = 0;
    let after = TimeSlot::add_signed_hours(before, -1);
    assert_eq!(after, 23);
}

#[test]
fn room_five_am_is_the_origin() {
    let time_slot = TimeSlot::from_label("5:00 AM").unwrap();
    assert_eq!(time_slot.to_label(), "5:00 AM");
    assert_eq!(time_slot.to_discriminant(), 0);
}

#[test]
fn room_check_timeslot() {
    let time_slot_a = TimeSlot::from_label("10:00 AM").unwrap();
    assert_eq!(time_slot_a.to_label(), "10:00 AM");
    let time_slot_b = TimeSlot::from_label("10:30 AM").unwrap();
    assert_eq!(time_slot_b.to_label(), "10:30 AM");
    assert!(time_slot_a < time_slot_b);
    let discr_diff = time_slot_b.to_discriminant() - time_slot_a.to_discriminant();
    assert_eq!(discr_diff, 1);
}
