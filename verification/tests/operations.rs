use number_enum::fault::INVALID_ORDINAL;
use number_enum::{Capability, InvalidOrdinalFault, Variant, WidthClass};

fn state() -> Capability {
    let variants: Vec<String> =
        ["Idle", "Running", "Done"].iter().map(|name| name.to_string()).collect();
    Capability::synthesize("State", &variants, "u8")
}

fn ladder(count: usize, repr: &str) -> Capability {
    let variants: Vec<String> = (0..count).map(|i| format!("V{}", i)).collect();
    Capability::synthesize("Ladder", &variants, repr)
}

fn at(index: usize) -> Variant {
    Variant { index }
}

#[test]
fn synthesized_parts_describe_the_same_type() {
    let cap = state();
    assert_eq!(cap.convert().name, "State");
    assert_eq!(cap.calc().name, "State");
    assert_eq!(cap.convert().repr, "u8");
    assert_eq!(cap.calc().repr, "u8");
    assert_eq!(cap.width(), WidthClass::Byte);
    assert_eq!(cap.variant_count(), 3);
    assert_eq!(cap.calc().operations.len(), 4);
}

#[test]
fn variants_are_found_by_name() {
    let cap = state();
    assert_eq!(cap.variant_named("Idle"), Some(at(0)));
    assert_eq!(cap.variant_named("Running"), Some(at(1)));
    assert_eq!(cap.variant_named("Done"), Some(at(2)));
    assert_eq!(cap.variant_named("Stopped"), None);
    assert_eq!(cap.variant_named("idle"), None);
    assert_eq!(cap.variant_named(""), None);
}

#[test]
fn first_of_two_equal_names_is_found() {
    let variants = vec!["A".to_string(), "B".to_string(), "A".to_string()];
    let cap = Capability::synthesize("Twice", &variants, "u8");
    assert_eq!(cap.variant_named("A"), Some(at(0)));
    assert_eq!(cap.name_of(at(2)), "A");
}

#[test]
fn names_are_read_by_position() {
    let cap = state();
    assert_eq!(cap.name_of(at(0)), "Idle");
    assert_eq!(cap.name_of(at(1)), "Running");
    assert_eq!(cap.name_of(at(2)), "Done");
}

#[test]
fn state_example() {
    let cap = state();
    let idle = cap.variant_named("Idle").unwrap();
    let running = cap.variant_named("Running").unwrap();
    let done = cap.variant_named("Done").unwrap();
    assert_eq!(cap.to_number(idle), 0);
    assert_eq!(cap.to_number(running), 1);
    assert_eq!(cap.to_number(done), 2);
    assert_eq!(cap.add(idle, running), running);
    assert_eq!(cap.from_number(2), done);
    assert_eq!(cap.checked_from_number(2), Ok(done));
    assert_eq!(cap.checked_from_number(3), Err(InvalidOrdinalFault { value: 3 }));
}

#[test]
fn fault_message() {
    let fault = InvalidOrdinalFault { value: 3 };
    assert_eq!(fault.message(), "failed to parse number into enum");
    assert_eq!(INVALID_ORDINAL, "failed to parse number into enum");
}

#[test]
fn number_round_trips_through_variant() {
    for (count, repr) in [(3, "u8"), (256, "u8"), (300, "u16"), (1, "u32")] {
        let cap = ladder(count, repr);
        for n in 0..count {
            let variant = cap.from_number(n as u16);
            assert_eq!(variant, at(n));
            assert_eq!(cap.to_number(variant), n as u16);
        }
    }
}

#[test]
fn variant_round_trips_through_number() {
    for (count, repr) in [(3, "u8"), (256, "u8"), (300, "u16"), (1, "u32")] {
        let cap = ladder(count, repr);
        for i in 0..count {
            let number = cap.to_number(at(i));
            assert_eq!(number, i as u16);
            assert_eq!(cap.from_number(number), at(i));
        }
    }
}

#[test]
fn numbers_from_the_count_on_stand_for_nothing() {
    let cap = state();
    for n in 3..=u16::MAX {
        assert_eq!(cap.checked_from_number(n), Err(InvalidOrdinalFault { value: n }));
    }
    let cap = ladder(300, "u16");
    assert_eq!(cap.checked_from_number(299), Ok(at(299)));
    assert_eq!(cap.checked_from_number(300), Err(InvalidOrdinalFault { value: 300 }));
    assert_eq!(cap.checked_from_number(65535), Err(InvalidOrdinalFault { value: 65535 }));
}

#[test]
fn no_number_stands_for_a_variant_of_an_empty_enumeration() {
    let cap = ladder(0, "u8");
    assert_eq!(cap.variant_count(), 0);
    assert_eq!(cap.checked_from_number(0), Err(InvalidOrdinalFault { value: 0 }));
    assert_eq!(cap.variant_named("V0"), None);
}

#[test]
fn byte_numbers_fit_eight_bits() {
    let cap = ladder(300, "u8");
    for i in 0..300 {
        let number = cap.to_number(at(i));
        assert!(number < 256);
        assert_eq!(number, (i % 256) as u16);
    }
    for n in 0..256u16 {
        assert_eq!(cap.to_number(at(n as usize)), n);
    }
}

#[test]
fn byte_variants_past_256_share_numbers() {
    let cap = ladder(300, "u8");
    assert_eq!(cap.to_number(at(256)), 0);
    assert_eq!(cap.to_number(at(299)), 43);
    assert_eq!(cap.from_number(0), at(0));
    assert_eq!(cap.from_number(43), at(43));
    assert_eq!(cap.checked_from_number(255), Ok(at(255)));
    assert_eq!(cap.checked_from_number(256), Err(InvalidOrdinalFault { value: 256 }));
    assert_eq!(cap.checked_from_number(299), Err(InvalidOrdinalFault { value: 299 }));
}

#[test]
fn wider_markers_work_in_sixteen_bits() {
    for repr in ["u16", "u32", "u64", "usize"] {
        let cap = ladder(65540, repr);
        assert_eq!(cap.width(), WidthClass::Word);
        assert_eq!(cap.to_number(at(300)), 300);
        assert_eq!(cap.to_number(at(65535)), 65535);
        assert_eq!(cap.to_number(at(65536)), 0);
        assert_eq!(cap.to_number(at(65539)), 3);
        assert_eq!(cap.from_number(65535), at(65535));
        assert_eq!(cap.from_number(3), at(3));
    }
}

#[test]
fn addition_goes_through_numbers() {
    let cap = ladder(10, "u8");
    assert_eq!(cap.add(at(0), at(0)), at(0));
    assert_eq!(cap.add(at(2), at(3)), at(5));
    assert_eq!(cap.add(at(3), at(2)), at(5));
    assert_eq!(cap.add(at(9), at(0)), at(9));
    assert_eq!(cap.checked_add(at(4), at(5)), Ok(at(9)));
    assert_eq!(cap.checked_add(at(5), at(5)), Err(InvalidOrdinalFault { value: 10 }));
    assert_eq!(cap.checked_add(at(9), at(9)), Err(InvalidOrdinalFault { value: 18 }));
}

#[test]
fn subtraction_goes_through_numbers() {
    let cap = ladder(10, "u8");
    assert_eq!(cap.sub(at(5), at(3)), at(2));
    assert_eq!(cap.sub(at(9), at(9)), at(0));
    assert_eq!(cap.sub(at(9), at(0)), at(9));
    assert_eq!(cap.checked_sub(at(7), at(2)), Ok(at(5)));
    assert_eq!(cap.checked_sub(at(2), at(7)), Err(InvalidOrdinalFault { value: 251 }));
    assert_eq!(cap.checked_sub(at(0), at(1)), Err(InvalidOrdinalFault { value: 255 }));
}

#[test]
fn word_subtraction_below_zero_wraps_to_sixteen_bits() {
    let cap = ladder(10, "u16");
    assert_eq!(cap.checked_sub(at(0), at(1)), Err(InvalidOrdinalFault { value: 65535 }));
    assert_eq!(cap.checked_sub(at(2), at(7)), Err(InvalidOrdinalFault { value: 65531 }));
    let cap = ladder(10, "u32");
    assert_eq!(cap.checked_sub(at(0), at(1)), Err(InvalidOrdinalFault { value: 65535 }));
}

#[test]
fn full_byte_enumeration_wraps_around() {
    let cap = ladder(256, "u8");
    assert_eq!(cap.add(at(255), at(1)), at(0));
    assert_eq!(cap.add(at(200), at(100)), at(44));
    assert_eq!(cap.sub(at(0), at(1)), at(255));
    assert_eq!(cap.sub(at(44), at(100)), at(200));
    assert_eq!(cap.checked_add(at(255), at(255)), Ok(at(254)));
}

#[test]
fn full_word_enumeration_wraps_around() {
    let cap = ladder(65536, "u16");
    assert_eq!(cap.add(at(65535), at(1)), at(0));
    assert_eq!(cap.sub(at(0), at(1)), at(65535));
    assert_eq!(cap.add(at(255), at(1)), at(256));
}

#[test]
fn subtraction_undoes_addition() {
    for (count, repr) in [(3, "u8"), (12, "u8"), (12, "u16"), (256, "u8")] {
        let cap = ladder(count, repr);
        for a in 0..count {
            for b in 0..count {
                if let Ok(sum) = cap.checked_add(at(a), at(b)) {
                    assert_eq!(cap.checked_sub(sum, at(b)), Ok(at(a)));
                    assert_eq!(cap.sub(sum, at(b)), at(a));
                }
            }
        }
    }
}

#[test]
fn subtraction_need_not_undo_addition_past_the_width() {
    let cap = ladder(300, "u8");
    let sum = cap.add(at(256), at(0));
    assert_eq!(sum, at(0));
    assert_eq!(cap.sub(sum, at(0)), at(0));
}

#[test]
fn in_place_addition_rebinds_the_left_operand() {
    let cap = state();
    let mut value = at(0);
    cap.add_assign(&mut value, at(1));
    assert_eq!(value, at(1));
    cap.add_assign(&mut value, at(1));
    assert_eq!(value, at(2));
    cap.add_assign(&mut value, at(0));
    assert_eq!(value, at(2));
}

#[test]
fn in_place_subtraction_rebinds_the_left_operand() {
    let cap = state();
    let mut value = at(2);
    cap.sub_assign(&mut value, at(1));
    assert_eq!(value, at(1));
    cap.sub_assign(&mut value, at(1));
    assert_eq!(value, at(0));
    cap.sub_assign(&mut value, at(0));
    assert_eq!(value, at(0));
}

#[test]
fn in_place_forms_agree_with_the_operators() {
    let cap = ladder(12, "u16");
    for a in 0..12 {
        for b in 0..12 {
            if a + b < 12 {
                let mut value = at(a);
                cap.add_assign(&mut value, at(b));
                assert_eq!(value, cap.add(at(a), at(b)));
            }
            if b <= a {
                let mut value = at(a);
                cap.sub_assign(&mut value, at(b));
                assert_eq!(value, cap.sub(at(a), at(b)));
            }
        }
    }
}

#[test]
fn operands_are_left_as_they_were() {
    let cap = state();
    let before = cap.clone();
    let a = at(1);
    let b = at(1);
    let _ = cap.add(a, b);
    let _ = cap.checked_sub(a, at(2));
    assert_eq!(a, at(1));
    assert_eq!(b, at(1));
    assert_eq!(cap, before);
}
