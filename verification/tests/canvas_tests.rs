use hexil::canvas::CanvasBuffersManager;
use hexil::canvas::CanvasSettings;

#[test]
fn new_buffers_hold_one_zero_per_tile() {
    let m = CanvasBuffersManager::new(20, 15);
    assert_eq!(m.host_indices.len(), 300);
    assert_eq!(m.device_indices.len(), 300);
    assert!(m.host_indices.iter().all(|&v| v == 0));
    assert_eq!(
        m.host_settings,
        CanvasSettings {
            width: 20,
            height: 15
        }
    );
    assert_eq!(m.device_settings, m.host_settings);
}

#[test]
fn editing_writes_the_host_buffer_only() {
    let mut m = CanvasBuffersManager::new(4, 3);
    m.set_cell(2, 1, 7);
    // Row-major: (x, y) = (2, 1) lands at 1 * 4 + 2.
    assert_eq!(m.host_indices[6], 7);
    // The device copy is untouched until a transfer runs.
    assert_eq!(m.device_indices[6], 0);
}

#[test]
fn transfer_copies_the_host_snapshot_to_the_device() {
    let mut m = CanvasBuffersManager::new(4, 3);
    m.set_cell(0, 0, 3);
    m.set_cell(3, 2, 9);
    m.apply_transfer();
    assert_eq!(m.device_indices, m.host_indices);
    assert_eq!(m.device_indices[0], 3);
    assert_eq!(m.device_indices[11], 9);
    assert_eq!(m.device_settings, m.host_settings);
}
