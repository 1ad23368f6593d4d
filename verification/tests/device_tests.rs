use hexil::device_select::get_physical_device;
use hexil::device_select::rank_physical_devices;
use hexil::device_select::CandidateOrder;
use hexil::device_select::DeviceCandidate;
use hexil::error::RendererError;

fn cand(known: bool, mailbox: bool, maintenance: bool) -> DeviceCandidate {
    DeviceCandidate {
        present_modes_known: known,
        mailbox,
        swapchain_maintenance: maintenance,
    }
}

#[test]
fn mailbox_support_outranks_everything_queryable() {
    let with = cand(true, true, false);
    let without = cand(true, false, true);
    assert_eq!(rank_physical_devices(&with, &without), CandidateOrder::Better);
    assert_eq!(rank_physical_devices(&without, &with), CandidateOrder::Worse);
}

#[test]
fn queryable_device_outranks_unqueryable() {
    let queryable = cand(true, false, false);
    let broken = cand(false, true, true);
    assert_eq!(
        rank_physical_devices(&queryable, &broken),
        CandidateOrder::Better
    );
    assert_eq!(
        rank_physical_devices(&broken, &queryable),
        CandidateOrder::Worse
    );
}

#[test]
fn maintenance_extension_breaks_ties() {
    let with = cand(true, true, true);
    let without = cand(true, true, false);
    assert_eq!(rank_physical_devices(&with, &without), CandidateOrder::Better);
    assert_eq!(
        rank_physical_devices(&without, &without),
        CandidateOrder::Even
    );
}

#[test]
fn no_devices_is_an_error() {
    let empty = vec![];
    assert_eq!(
        get_physical_device(&empty),
        Err(RendererError::NoPhysicalDevices)
    );
}

#[test]
fn best_device_is_selected() {
    let candidates = vec![
        cand(true, false, true),
        cand(false, false, false),
        cand(true, true, false),
        cand(true, false, false),
    ];
    assert_eq!(get_physical_device(&candidates), Ok(2));
}

#[test]
fn ties_keep_the_last_enumerated_device() {
    let candidates = vec![cand(true, true, true), cand(true, true, true)];
    assert_eq!(get_physical_device(&candidates), Ok(1));
}
