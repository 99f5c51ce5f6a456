use rpmsg_async_notify::channel::{
    control_interface_dir, dev_path, endpoint_name_registry_path, register_rpmsg_driver_for_device,
    rpmsg_device_name, rpmsg_device_path, search_control_interface, search_endpoint_path_by_name,
    ChannelError,
};

#[test]
fn control_interface_tie_break_picks_first() {
    let entries = vec!["rpmsg_ctrl0".to_string(), "rpmsg_ctrl1".to_string()];
    let picked = search_control_interface(&entries, "rpmsg_ctrl").unwrap();
    assert_eq!(picked, "rpmsg_ctrl0");
}

#[test]
fn control_interface_skips_foreign_entries() {
    let entries = vec![
        "power".to_string(),
        "uevent".to_string(),
        "rpmsg_ctrl3".to_string(),
        "rpmsg_ctrl0".to_string(),
    ];
    let picked = search_control_interface(&entries, "rpmsg_ctrl").unwrap();
    assert_eq!(picked, "rpmsg_ctrl3");
}

#[test]
fn control_interface_missing_reported() {
    let entries = vec!["power".to_string(), "uevent".to_string()];
    let err = search_control_interface(&entries, "rpmsg_ctrl").unwrap_err();
    assert_eq!(err, ChannelError::CtrlInterfaceNotFound);
}

#[test]
fn endpoint_found_at_index_five() {
    // a fake filesystem: the matching name file sits at index 5
    let mut candidates: Vec<Option<Vec<u8>>> = vec![None; 6];
    candidates[2] = Some(b"some-other-endpoint\n".to_vec());
    candidates[5] = Some(b"rpmsg-openamp-demo-channel\n".to_vec());
    let path =
        search_endpoint_path_by_name("rpmsg-openamp-demo-channel", &candidates).unwrap();
    assert_eq!(path, "/dev/rpmsg5");
}

#[test]
fn endpoint_beyond_scan_limit_not_found() {
    // the scan covers indices 0..128 only: a match at 200 is unseen
    let mut candidates: Vec<Option<Vec<u8>>> = vec![None; 201];
    candidates[200] = Some(b"rpmsg-openamp-demo-channel\n".to_vec());
    let err =
        search_endpoint_path_by_name("rpmsg-openamp-demo-channel", &candidates).unwrap_err();
    assert_eq!(
        err,
        ChannelError::EndpointNotFound {
            endpoint_name: "rpmsg-openamp-demo-channel".to_string()
        }
    );
}

#[test]
fn endpoint_name_matching_strips_one_newline() {
    let candidates: Vec<Option<Vec<u8>>> =
        vec![Some(b"echo\n".to_vec()), Some(b"echo".to_vec())];
    assert_eq!(search_endpoint_path_by_name("echo", &candidates).unwrap(), "/dev/rpmsg0");
    let no_newline: Vec<Option<Vec<u8>>> = vec![Some(b"echo".to_vec())];
    assert_eq!(search_endpoint_path_by_name("echo", &no_newline).unwrap(), "/dev/rpmsg0");
}

#[test]
fn path_builders_lay_out_the_sysfs_tree() {
    let device = rpmsg_device_name("virtio0", "rpmsg-openamp-demo-channel", "1.0");
    assert_eq!(device, "virtio0.rpmsg-openamp-demo-channel.-1.0");
    assert_eq!(
        rpmsg_device_path(&device),
        "/sys/bus/rpmsg/devices/virtio0.rpmsg-openamp-demo-channel.-1.0"
    );
    assert_eq!(
        control_interface_dir(&device),
        "/sys/bus/rpmsg/devices/virtio0.rpmsg-openamp-demo-channel.-1.0/rpmsg"
    );
    assert_eq!(dev_path("rpmsg_ctrl0"), "/dev/rpmsg_ctrl0");
    assert_eq!(
        endpoint_name_registry_path("rpmsg_ctrl0", 17),
        "/sys/class/rpmsg/rpmsg_ctrl0/rpmsg17/name"
    );
}

#[test]
fn driver_registration_writes_override_then_bind() {
    let (override_req, bind_req) =
        register_rpmsg_driver_for_device("virtio0.echo.-1.0", "rpmsg_char_notify");
    assert_eq!(override_req.path, "/sys/bus/rpmsg/devices/virtio0.echo.-1.0/driver_override");
    assert_eq!(override_req.data, b"rpmsg_char_notify".to_vec());
    assert_eq!(bind_req.path, "/sys/bus/rpmsg/drivers/rpmsg_char_notify/bind");
    assert_eq!(bind_req.data, b"virtio0.echo.-1.0".to_vec());
}
