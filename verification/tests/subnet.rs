use vpn_connector::subnet::{
    decimal_text, generate_interface_subnet_and_name, subnet_for, subnet_step, SubnetError,
    SubnetStep,
};

#[test]
fn decimal_text_of_numbers() {
    assert_eq!(decimal_text(0), "0");
    assert_eq!(decimal_text(7), "7");
    assert_eq!(decimal_text(10), "10");
    assert_eq!(decimal_text(99), "99");
    assert_eq!(decimal_text(100), "100");
    assert_eq!(decimal_text(109), "109");
    assert_eq!(decimal_text(255), "255");
    for n in 0..=255u8 {
        assert_eq!(decimal_text(n), n.to_string());
    }
}

#[test]
fn subnet_of_a_free_number() {
    let interfaces = vec!["lo".to_string(), "eth0".to_string(), "vpn_10_94_8".to_string()];
    let info = subnet_for(7, 12, &interfaces).unwrap();
    assert_eq!(info.subnet(), [10, 94, 7, 0]);
    assert_eq!(info.mask(), [255, 255, 255, 0]);
    assert_eq!(info.node_ip(), [10, 94, 7, 12]);
    assert_eq!(info.interface_name(), "vpn_10_94_7");
}

#[test]
fn subnet_of_a_taken_number() {
    let interfaces = vec!["lo".to_string(), "vpn_10_94_200".to_string()];
    assert!(subnet_for(200, 1, &interfaces).is_none());
    assert!(subnet_for(20, 1, &interfaces).is_some());
}

#[test]
fn generated_subnet_is_free() {
    let interfaces: Vec<String> =
        (0..255u32).filter(|n| n % 2 == 0).map(|n| format!("vpn_10_94_{}", n)).collect();
    for _ in 0..20 {
        match generate_interface_subnet_and_name(9, &interfaces) {
            Ok(info) => {
                let number = info.subnet()[2];
                assert!(number < 255);
                assert_eq!(number % 2, 1);
                assert_eq!(info.subnet(), [10, 94, number, 0]);
                assert_eq!(info.mask(), [255, 255, 255, 0]);
                assert_eq!(info.node_ip(), [10, 94, number, 9]);
                assert_eq!(info.interface_name(), format!("vpn_10_94_{}", number));
                assert!(!interfaces.iter().any(|name| name == info.interface_name()));
            },
            Err(e) => assert_eq!(e, SubnetError::NoFreeSubnet),
        }
    }
}

#[test]
fn generated_subnet_is_found_when_none_is_taken() {
    let interfaces = vec!["lo".to_string(), "eth0".to_string()];
    for _ in 0..50 {
        let info = generate_interface_subnet_and_name(1, &interfaces).unwrap();
        assert!(info.subnet()[2] < 255);
    }
}

#[test]
fn no_subnet_when_all_are_taken() {
    let interfaces: Vec<String> = (0..255u32).map(|n| format!("vpn_10_94_{}", n)).collect();
    assert_eq!(
        generate_interface_subnet_and_name(1, &interfaces).err(),
        Some(SubnetError::NoFreeSubnet)
    );
}

#[test]
fn step_finds_a_free_number_at_any_try() {
    let interfaces = vec!["lo".to_string(), "vpn_10_94_3".to_string()];
    for tries_done in [0u32, 1, 98, 99, 100, u32::MAX] {
        match subnet_step(tries_done, 4, 9, &interfaces) {
            SubnetStep::Found(info) => {
                assert_eq!(info.subnet(), [10, 94, 4, 0]);
                assert_eq!(info.node_ip(), [10, 94, 4, 9]);
                assert_eq!(info.interface_name(), "vpn_10_94_4");
            },
            other => panic!("unexpected step {:?}", other),
        }
    }
}

#[test]
fn step_retries_a_taken_number_before_the_last_try() {
    let interfaces = vec!["vpn_10_94_3".to_string()];
    for tries_done in [0u32, 1, 50, 98] {
        assert!(matches!(subnet_step(tries_done, 3, 9, &interfaces), SubnetStep::Retry));
    }
}

#[test]
fn step_gives_up_on_a_taken_number_at_the_last_try() {
    let interfaces = vec!["vpn_10_94_3".to_string()];
    for tries_done in [99u32, 100, 1000, u32::MAX] {
        assert!(matches!(subnet_step(tries_done, 3, 9, &interfaces), SubnetStep::GiveUp));
    }
}
