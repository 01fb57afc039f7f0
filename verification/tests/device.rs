use rayvox::device::{rank_device, select_device, PhysicalDeviceType};

#[test]
fn devices_rank_from_discrete_to_unrecognized() {
    assert_eq!(rank_device(PhysicalDeviceType::DiscreteGpu), 0);
    assert_eq!(rank_device(PhysicalDeviceType::IntegratedGpu), 1);
    assert_eq!(rank_device(PhysicalDeviceType::VirtualGpu), 2);
    assert_eq!(rank_device(PhysicalDeviceType::Cpu), 3);
    assert_eq!(rank_device(PhysicalDeviceType::Other), 4);
    assert_eq!(rank_device(PhysicalDeviceType::Unrecognized), 5);
}

#[test]
fn no_device_gives_no_choice() {
    assert_eq!(select_device(&Vec::new()), None);
}

#[test]
fn the_best_ranked_device_is_chosen() {
    let kinds = vec![
        PhysicalDeviceType::Cpu,
        PhysicalDeviceType::IntegratedGpu,
        PhysicalDeviceType::DiscreteGpu,
        PhysicalDeviceType::VirtualGpu,
    ];
    assert_eq!(select_device(&kinds), Some(2));
    assert_eq!(select_device(&vec![PhysicalDeviceType::Unrecognized]), Some(0));
    assert_eq!(
        select_device(&vec![PhysicalDeviceType::Other, PhysicalDeviceType::Unrecognized]),
        Some(0)
    );
}

#[test]
fn of_equal_devices_the_first_is_chosen() {
    let kinds = vec![
        PhysicalDeviceType::Cpu,
        PhysicalDeviceType::IntegratedGpu,
        PhysicalDeviceType::Other,
        PhysicalDeviceType::IntegratedGpu,
    ];
    assert_eq!(select_device(&kinds), Some(1));
}

#[test]
fn choice_agrees_with_the_minimum_by_rank() {
    let all = [
        PhysicalDeviceType::DiscreteGpu,
        PhysicalDeviceType::IntegratedGpu,
        PhysicalDeviceType::VirtualGpu,
        PhysicalDeviceType::Cpu,
        PhysicalDeviceType::Other,
        PhysicalDeviceType::Unrecognized,
    ];
    for a in all {
        for b in all {
            for c in all {
                let kinds = vec![a, b, c];
                let expected = kinds
                    .iter()
                    .enumerate()
                    .min_by_key(|(_, kind)| rank_device(**kind))
                    .map(|(index, _)| index);
                assert_eq!(select_device(&kinds), expected);
            }
        }
    }
}
