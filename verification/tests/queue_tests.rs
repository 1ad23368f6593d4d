use hexil::error::RendererError;
use hexil::queue_select::plan_queue_creation;
use hexil::queue_select::select_queue_families;
use hexil::queue_select::QueueFamilyProps;

fn fam(graphics: bool, transfer: bool) -> QueueFamilyProps {
    QueueFamilyProps { graphics, transfer }
}

#[test]
fn disjoint_dedicated_families_are_kept_apart() {
    // A device with a dedicated graphics family and a dedicated transfer
    // family: the selection must not share.
    let families = vec![fam(true, false), fam(false, true)];
    let sel = select_queue_families(&families).unwrap();
    assert_eq!(sel.graphics_family, 0);
    assert_eq!(sel.transfer_family, 1);
    assert!(!sel.shared_family);
}

#[test]
fn single_combined_family_is_shared_with_warning() {
    let families = vec![fam(true, true)];
    let sel = select_queue_families(&families).unwrap();
    assert_eq!(sel.graphics_family, 0);
    assert_eq!(sel.transfer_family, 0);
    assert!(sel.shared_family);
}

#[test]
fn two_combined_families_split_the_roles() {
    let families = vec![fam(false, false), fam(true, true), fam(true, true)];
    let sel = select_queue_families(&families).unwrap();
    assert_eq!(sel.graphics_family, 1);
    assert_eq!(sel.transfer_family, 2);
    assert!(!sel.shared_family);
}

#[test]
fn dedicated_families_beat_combined_ones() {
    // Combined family first; dedicated graphics and transfer later. The
    // dedicated families take the roles.
    let families = vec![fam(true, true), fam(true, false), fam(false, true)];
    let sel = select_queue_families(&families).unwrap();
    assert_eq!(sel.graphics_family, 1);
    assert_eq!(sel.transfer_family, 2);
    assert!(!sel.shared_family);
}

#[test]
fn combined_family_fills_the_role_without_a_dedicated_one() {
    // Dedicated graphics, and only a combined family for transfer.
    let families = vec![fam(true, false), fam(true, true)];
    let sel = select_queue_families(&families).unwrap();
    assert_eq!(sel.graphics_family, 0);
    assert_eq!(sel.transfer_family, 1);
    assert!(!sel.shared_family);

    // Mirror image: dedicated transfer, combined for graphics.
    let families = vec![fam(false, true), fam(true, true)];
    let sel = select_queue_families(&families).unwrap();
    assert_eq!(sel.graphics_family, 1);
    assert_eq!(sel.transfer_family, 0);
    assert!(!sel.shared_family);
}

#[test]
fn no_graphics_family_is_an_error() {
    let families = vec![fam(false, true), fam(false, false)];
    assert_eq!(
        select_queue_families(&families),
        Err(RendererError::NoGraphicsQueues)
    );
}

#[test]
fn no_transfer_family_is_an_error() {
    let families = vec![fam(true, false)];
    assert_eq!(
        select_queue_families(&families),
        Err(RendererError::NoTransferQueues)
    );
}

#[test]
fn no_families_at_all_reports_missing_graphics() {
    let families = vec![];
    assert_eq!(
        select_queue_families(&families),
        Err(RendererError::NoGraphicsQueues)
    );
}

#[test]
fn shared_selection_asks_two_queues_of_one_family() {
    let families = vec![fam(true, true)];
    let sel = select_queue_families(&families).unwrap();
    let plan = plan_queue_creation(&sel);
    assert_eq!(plan.len(), 1);
    assert_eq!(plan[0].family_index, 0);
    assert_eq!(plan[0].queue_count, 2);
}

#[test]
fn split_selection_asks_one_queue_of_each_family() {
    let families = vec![fam(true, false), fam(false, true)];
    let sel = select_queue_families(&families).unwrap();
    let plan = plan_queue_creation(&sel);
    assert_eq!(plan.len(), 2);
    assert_eq!(plan[0].family_index, 0);
    assert_eq!(plan[0].queue_count, 1);
    assert_eq!(plan[1].family_index, 1);
    assert_eq!(plan[1].queue_count, 1);
}
